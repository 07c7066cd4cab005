//! Lists as the functions of the host read them.

use vstd::prelude::*;

use crate::interpreter::object::values_of;
use crate::interpreter::object::Object;
use crate::interpreter::semantics::element;

verus! {

/// The element of `items` at `index`, counted from 0, or `nil` where the
/// list has none there.
pub fn element_at(items: &Vec<Object>, index: u64) -> (r: Object)
    ensures
        r@ == element(values_of(*items), index),
{
    assert(values_of(*items).len() == items.len());
    if index < items.len() as u64 {
        assert(values_of(*items)[index as int] == items[index as int]@);
        items[index as usize].clone()
    } else {
        Object::Nil
    }
}

} // verus!
