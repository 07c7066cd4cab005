//! Classes.

use std::rc::Rc;
use vstd::prelude::*;
use vstd::string::StringExecFns;

use crate::interpreter::object::callable::Callable;
use crate::interpreter::object::class_view;
use crate::interpreter::object::methods_view;
use crate::interpreter::object::model::find_method;
use crate::interpreter::object::model::ClassView;
use crate::utils::following;
use crate::utils::next_id;
use crate::utils::IdAllocator;

verus! {

/// One method of a class.
#[derive(Debug)]
pub struct Method {
    pub name: String,
    pub function: Callable,
}

/// A class: its methods by name, and the class that it extends. Of two
/// methods with one name the later one counts.
#[derive(Debug)]
pub struct Class {
    pub id: u64,
    pub name: String,
    pub methods: Vec<Method>,
    pub superclass: Option<Rc<Class>>,
}

impl View for Class {
    type V = ClassView;

    open spec fn view(&self) -> ClassView {
        class_view(*self)
    }
}

impl Class {
    /// A class with the next identifier of `ids`.
    pub fn new(
        ids: &mut IdAllocator,
        name: String,
        methods: Vec<Method>,
        superclass: Option<Rc<Class>>,
    ) -> (r: Self)
        ensures
            r == (Class { id: old(ids).upcoming(), name, methods, superclass }),
            final(ids).upcoming() == following(old(ids).upcoming()),
    {
        let id = next_id(ids);
        Self { id, name, methods, superclass }
    }

    /// The method `name` among the class's own methods.
    fn own_method(&self, name: &String) -> (r: Option<&Callable>)
        ensures
            match r {
                Some(method) => self@.methods.contains_key(name@) && self@.methods[name@]
                    == method@,
                None => !self@.methods.contains_key(name@),
            },
    {
        let mut found: Option<&Callable> = None;
        let mut i: usize = 0;
        while i < self.methods.len()
            invariant
                i <= self.methods.len(),
                match found {
                    Some(method) => methods_view(self.methods, i as int).contains_key(name@)
                        && methods_view(self.methods, i as int)[name@] == method@,
                    None => !methods_view(self.methods, i as int).contains_key(name@),
                },
            decreases self.methods.len() - i,
        {
            if self.methods[i].name == *name {
                found = Some(&self.methods[i].function);
            }
            i += 1;
        }
        found
    }

    /// The method `name`: the class's own, or else the one that its
    /// superclass chain gives.
    pub fn find_method(&self, name: &str) -> (r: Option<Callable>)
        ensures
            match find_method(self@, name@) {
                Some(method) => r is Some && r->0@ == method,
                None => r is None,
            },
    {
        let key = String::from_str(name);
        self.method_named(&key)
    }

    /// The method `name`, as `find_method` finds it.
    pub fn method_named(&self, name: &String) -> (r: Option<Callable>)
        ensures
            match find_method(self@, name@) {
                Some(method) => r is Some && r->0@ == method,
                None => r is None,
            },
        decreases self,
    {
        match self.own_method(name) {
            Some(method) => Some(method.clone()),
            None => match &self.superclass {
                Some(superclass) => superclass.method_named(name),
                None => None,
            },
        }
    }

    /// The class seen as the callable that makes its instances.
    pub fn constructor(class: &Rc<Class>) -> (r: Callable)
        ensures
            r@ == crate::interpreter::semantics::constructor(class@),
    {
        let init = String::from_str("init");
        let is_init = class.own_method(&init).is_some();
        Callable::build(
            class.id,
            None,
            None,
            crate::interpreter::object::callable::Behaviour::Construct(
                crate::interpreter::text::share(class),
            ),
            is_init,
        )
    }

    /// How the class is written: by its name.
    pub fn to_string(&self) -> (r: String)
        ensures
            r@ == self@.name,
    {
        self.name.clone()
    }
}

} // verus!
