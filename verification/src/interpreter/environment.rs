//! The environment chain: frames of name-to-value bindings, each with a
//! link to the frame that encloses it, kept in one heap and named by
//! their index in it.

use vstd::prelude::*;
use vstd::string::StringExecFns;

use crate::interpreter::error::InterpreterError;
use crate::interpreter::error::InterpreterErrorView;
use crate::interpreter::error::RuntimeError;
use crate::interpreter::error::RuntimeErrorType;
use crate::interpreter::error::RuntimeErrorTypeView;
use crate::interpreter::error::RuntimeErrorView;
use crate::interpreter::object::model::Value;
use crate::interpreter::object::Object;
use crate::interpreter::scanner::token::Token;
use crate::interpreter::scanner::token::TokenView;

verus! {

/// One name of a frame. A binding without a value is a variable that is
/// declared and not yet initialized.
#[derive(Debug)]
pub struct Binding {
    pub name: String,
    pub value: Option<Object>,
}

/// One frame of bindings.
#[derive(Debug)]
pub struct Environment {
    pub values: Vec<Binding>,
    pub enclosing: Option<usize>,
}

/// One field of an instance.
#[derive(Debug)]
pub struct Field {
    pub name: String,
    pub value: Object,
}

/// The frames and the fields of the instances of a running program.
/// Nothing is ever taken out of the heap.
#[derive(Debug)]
pub struct Heap {
    pub frames: Vec<Environment>,
    pub instances: Vec<Vec<Field>>,
}

/// A frame as a mathematical object.
pub struct EnvironmentView {
    pub values: Map<Seq<char>, Option<Value>>,
    pub enclosing: Option<usize>,
}

/// A heap as a mathematical object.
pub struct HeapView {
    pub frames: Seq<EnvironmentView>,
    pub instances: Seq<Map<Seq<char>, Value>>,
}

/// The result of an evaluation: a value, or what ended it early.
pub type Outcome = Result<Value, InterpreterErrorView>;

/// The view of an optional object.
pub open spec fn optional_view(value: Option<Object>) -> Option<Value> {
    match value {
        Some(value) => Some(value@),
        None => None,
    }
}

/// The bindings that a list of entries stands for: of two entries for a
/// name the later one counts.
pub open spec fn bindings_view(entries: Seq<Binding>) -> Map<Seq<char>, Option<Value>>
    decreases entries.len(),
{
    if entries.len() == 0 {
        Map::empty()
    } else {
        bindings_view(entries.drop_last()).insert(
            entries.last().name@,
            optional_view(entries.last().value),
        )
    }
}

/// The fields that a list of entries stands for: of two entries for a
/// name the later one counts.
pub open spec fn fields_view(entries: Seq<Field>) -> Map<Seq<char>, Value>
    decreases entries.len(),
{
    if entries.len() == 0 {
        Map::empty()
    } else {
        fields_view(entries.drop_last()).insert(entries.last().name@, entries.last().value@)
    }
}

impl View for Environment {
    type V = EnvironmentView;

    open spec fn view(&self) -> EnvironmentView {
        EnvironmentView { values: bindings_view(self.values@), enclosing: self.enclosing }
    }
}

impl View for Heap {
    type V = HeapView;

    open spec fn view(&self) -> HeapView {
        HeapView {
            frames: self.frames@.map_values(|frame: Environment| frame@),
            instances: self.instances@.map_values(|fields: Vec<Field>| fields_view(fields@)),
        }
    }
}

/// An error of kind `ty` attributed to `token`.
pub open spec fn fault(token: TokenView, ty: RuntimeErrorTypeView) -> InterpreterErrorView {
    InterpreterErrorView::RuntimeError(RuntimeErrorView { token, ty })
}

/// The outcome that an executable result stands for.
pub open spec fn outcome_of(r: Result<Object, InterpreterError>) -> Outcome {
    match r {
        Ok(value) => Ok(value@),
        Err(error) => Err(error@),
    }
}

/// Whether an executable result stands for an outcome of the model.
pub open spec fn agrees(r: Result<Object, InterpreterError>, m: Outcome) -> bool {
    outcome_of(r) == m
}

/// Reading `name` from the frame `env` outward. A frame that holds the
/// name decides: its value, or `VariableIsNotInit` where it has none. A
/// name that no frame of the chain holds is undefined.
pub open spec fn read(frames: Seq<EnvironmentView>, env: int, name: TokenView) -> Outcome
    decreases env,
{
    if !(0 <= env < frames.len()) {
        Err(fault(name, RuntimeErrorTypeView::BugEnvironmentNotInit))
    } else if frames[env].values.contains_key(name.lexeme) {
        match frames[env].values[name.lexeme] {
            Some(value) => Ok(value),
            None => Err(fault(name, RuntimeErrorTypeView::VariableIsNotInit(name.lexeme))),
        }
    } else {
        match frames[env].enclosing {
            Some(outer) => if outer < env {
                read(frames, outer as int, name)
            } else {
                Err(fault(name, RuntimeErrorTypeView::BugEnvironmentNotInit))
            },
            None => Err(fault(name, RuntimeErrorTypeView::UndefinedVariable(name.lexeme))),
        }
    }
}

/// The frame that lies `distance` links outward of `env`.
pub open spec fn ancestor(frames: Seq<EnvironmentView>, env: Option<usize>, distance: nat) -> Option<
    usize,
>
    decreases distance,
{
    if distance == 0 {
        env
    } else {
        match env {
            Some(e) => if e < frames.len() {
                ancestor(frames, frames[e as int].enclosing, (distance - 1) as nat)
            } else {
                None
            },
            None => None,
        }
    }
}

/// Reading `name` from the frame `distance` links outward of `env`, and
/// from there outward.
pub open spec fn read_at(
    frames: Seq<EnvironmentView>,
    env: Option<usize>,
    distance: nat,
    name: TokenView,
) -> Outcome {
    match ancestor(frames, env, distance) {
        Some(frame) => read(frames, frame as int, name),
        None => Err(fault(name, RuntimeErrorTypeView::BugEnvironmentNotInit)),
    }
}

/// The frames with `name` bound to `value` in the frame `env`.
pub open spec fn bound(
    frames: Seq<EnvironmentView>,
    env: int,
    name: Seq<char>,
    value: Option<Value>,
) -> Seq<EnvironmentView> {
    if 0 <= env < frames.len() {
        frames.update(
            env,
            EnvironmentView { values: frames[env].values.insert(name, value), ..frames[env] },
        )
    } else {
        frames
    }
}

/// The frame, from `env` outward, that an assignment to `name` writes:
/// the first that holds the name.
pub open spec fn holder(frames: Seq<EnvironmentView>, env: int, name: Seq<char>) -> Option<int>
    decreases env,
{
    if !(0 <= env < frames.len()) {
        None
    } else if frames[env].values.contains_key(name) {
        Some(env)
    } else {
        match frames[env].enclosing {
            Some(outer) => if outer < env {
                holder(frames, outer as int, name)
            } else {
                None
            },
            None => None,
        }
    }
}

/// Assigning `value` to `name` from the frame `env` outward: the frames
/// after it, with the first frame that holds the name updated, or
/// `UndefinedVariable` where none holds it.
pub open spec fn written(
    frames: Seq<EnvironmentView>,
    env: int,
    name: TokenView,
    value: Value,
) -> Result<Seq<EnvironmentView>, InterpreterErrorView> {
    match holder(frames, env, name.lexeme) {
        Some(frame) => Ok(bound(frames, frame, name.lexeme, Some(value))),
        None => Err(fault(name, RuntimeErrorTypeView::UndefinedVariable(name.lexeme))),
    }
}

/// Assigning `value` to `name` in the frame `distance` links outward of
/// `env`, whether or not that frame holds the name.
pub open spec fn written_at(
    frames: Seq<EnvironmentView>,
    env: Option<usize>,
    distance: nat,
    name: TokenView,
    value: Value,
) -> Result<Seq<EnvironmentView>, InterpreterErrorView> {
    match ancestor(frames, env, distance) {
        Some(frame) => if frame < frames.len() {
            Ok(bound(frames, frame as int, name.lexeme, Some(value)))
        } else {
            Err(fault(name, RuntimeErrorTypeView::BugEnvironmentNotInit))
        },
        None => Err(fault(name, RuntimeErrorTypeView::BugEnvironmentNotInit)),
    }
}

/// What a list of bindings says of `name`.
fn find_binding<'a>(entries: &'a Vec<Binding>, name: &String) -> (r: Option<&'a Option<Object>>)
    ensures
        match r {
            Some(value) => bindings_view(entries@).contains_key(name@) && bindings_view(
                entries@,
            )[name@] == optional_view(*value),
            None => !bindings_view(entries@).contains_key(name@),
        },
{
    let mut found: Option<&Option<Object>> = None;
    let mut i: usize = 0;
    while i < entries.len()
        invariant
            i <= entries.len(),
            match found {
                Some(value) => bindings_view(entries@.take(i as int)).contains_key(name@)
                    && bindings_view(entries@.take(i as int))[name@] == optional_view(*value),
                None => !bindings_view(entries@.take(i as int)).contains_key(name@),
            },
        decreases entries.len() - i,
    {
        if entries[i].name == *name {
            found = Some(&entries[i].value);
        }
        i += 1;
        assert(entries@.take(i as int).drop_last() =~= entries@.take(i - 1));
    }
    assert(entries@.take(i as int) =~= entries@);
    found
}

/// What a list of fields says of `name`.
fn find_field<'a>(entries: &'a Vec<Field>, name: &String) -> (r: Option<&'a Object>)
    ensures
        match r {
            Some(value) => fields_view(entries@).contains_key(name@) && fields_view(
                entries@,
            )[name@] == value@,
            None => !fields_view(entries@).contains_key(name@),
        },
{
    let mut found: Option<&Object> = None;
    let mut i: usize = 0;
    while i < entries.len()
        invariant
            i <= entries.len(),
            match found {
                Some(value) => fields_view(entries@.take(i as int)).contains_key(name@)
                    && fields_view(entries@.take(i as int))[name@] == value@,
                None => !fields_view(entries@.take(i as int)).contains_key(name@),
            },
        decreases entries.len() - i,
    {
        if entries[i].name == *name {
            found = Some(&entries[i].value);
        }
        i += 1;
        assert(entries@.take(i as int).drop_last() =~= entries@.take(i - 1));
    }
    assert(entries@.take(i as int) =~= entries@);
    found
}

/// Putting an entry in the place of the last entry of its name gives the
/// bindings with the name bound anew.
proof fn lemma_binding_replaced(entries: Seq<Binding>, at: int, entry: Binding)
    requires
        0 <= at < entries.len(),
        entries[at].name@ == entry.name@,
        forall|j: int| at < j < entries.len() ==> entries[j].name@ != entry.name@,
    ensures
        bindings_view(entries.update(at, entry)) == bindings_view(entries).insert(
            entry.name@,
            optional_view(entry.value),
        ),
    decreases entries.len(),
{
    let updated = entries.update(at, entry);
    if at == entries.len() - 1 {
        assert(updated.drop_last() =~= entries.drop_last());
    } else {
        lemma_binding_replaced(entries.drop_last(), at, entry);
        assert(updated.drop_last() =~= entries.drop_last().update(at, entry));
    }
    assert(bindings_view(updated) =~= bindings_view(entries).insert(
        entry.name@,
        optional_view(entry.value),
    ));
}

/// Putting an entry in the place of the last entry of its name gives the
/// fields with the name written anew.
proof fn lemma_field_replaced(entries: Seq<Field>, at: int, entry: Field)
    requires
        0 <= at < entries.len(),
        entries[at].name@ == entry.name@,
        forall|j: int| at < j < entries.len() ==> entries[j].name@ != entry.name@,
    ensures
        fields_view(entries.update(at, entry)) == fields_view(entries).insert(
            entry.name@,
            entry.value@,
        ),
    decreases entries.len(),
{
    let updated = entries.update(at, entry);
    if at == entries.len() - 1 {
        assert(updated.drop_last() =~= entries.drop_last());
    } else {
        lemma_field_replaced(entries.drop_last(), at, entry);
        assert(updated.drop_last() =~= entries.drop_last().update(at, entry));
    }
    assert(fields_view(updated) =~= fields_view(entries).insert(entry.name@, entry.value@));
}

/// Where the last entry of `name` stands in a list of bindings.
fn last_binding(entries: &Vec<Binding>, name: &String) -> (r: Option<usize>)
    ensures
        match r {
            Some(at) => at < entries.len() && entries[at as int].name@ == name@ && forall|j: int|
                at < j < entries.len() ==> entries[j].name@ != name@,
            None => forall|j: int| 0 <= j < entries.len() ==> entries[j].name@ != name@,
        },
{
    let mut found: Option<usize> = None;
    let mut i: usize = 0;
    while i < entries.len()
        invariant
            i <= entries.len(),
            match found {
                Some(at) => at < i && entries[at as int].name@ == name@ && forall|j: int|
                    at < j < i ==> entries[j].name@ != name@,
                None => forall|j: int| 0 <= j < i ==> entries[j].name@ != name@,
            },
        decreases entries.len() - i,
    {
        if entries[i].name == *name {
            found = Some(i);
        }
        i += 1;
    }
    found
}

/// Where the last entry of `name` stands in a list of fields.
fn last_field(entries: &Vec<Field>, name: &String) -> (r: Option<usize>)
    ensures
        match r {
            Some(at) => at < entries.len() && entries[at as int].name@ == name@ && forall|j: int|
                at < j < entries.len() ==> entries[j].name@ != name@,
            None => forall|j: int| 0 <= j < entries.len() ==> entries[j].name@ != name@,
        },
{
    let mut found: Option<usize> = None;
    let mut i: usize = 0;
    while i < entries.len()
        invariant
            i <= entries.len(),
            match found {
                Some(at) => at < i && entries[at as int].name@ == name@ && forall|j: int|
                    at < j < i ==> entries[j].name@ != name@,
                None => forall|j: int| 0 <= j < i ==> entries[j].name@ != name@,
            },
        decreases entries.len() - i,
    {
        if entries[i].name == *name {
            found = Some(i);
        }
        i += 1;
    }
    found
}

/// Binds `name` to `value` in a list of bindings: in the place of the
/// entry that the name has, or behind the entries where it has none.
fn put_binding(entries: &mut Vec<Binding>, name: String, value: Option<Object>)
    ensures
        bindings_view(final(entries)@) == bindings_view(old(entries)@).insert(
            name@,
            optional_view(value),
        ),
{
    let ghost before = entries@;
    match last_binding(entries, &name) {
        Some(at) => {
            let entry = Binding { name, value };
            proof {
                lemma_binding_replaced(before, at as int, entry);
            }
            entries.set(at, entry);
        },
        None => {
            entries.push(Binding { name, value });
            assert(entries@.drop_last() =~= before);
        },
    }
}

/// Writes `value` under `name` in a list of fields: in the place of the
/// entry that the name has, or behind the entries where it has none.
fn put_field(entries: &mut Vec<Field>, name: String, value: Object)
    ensures
        fields_view(final(entries)@) == fields_view(old(entries)@).insert(name@, value@),
{
    let ghost before = entries@;
    match last_field(entries, &name) {
        Some(at) => {
            let entry = Field { name, value };
            proof {
                lemma_field_replaced(before, at as int, entry);
            }
            entries.set(at, entry);
        },
        None => {
            entries.push(Field { name, value });
            assert(entries@.drop_last() =~= before);
        },
    }
}

fn runtime_error(name: &Token, ty: RuntimeErrorType) -> (r: InterpreterError)
    ensures
        r@ == fault(name@, ty@),
{
    InterpreterError::RuntimeError(RuntimeError::new(name.clone(), ty))
}

impl Environment {
    /// An empty frame inside `enclosing`.
    pub fn new(enclosing: Option<usize>) -> (r: Self)
        ensures
            r@ == (EnvironmentView { values: Map::empty(), enclosing }),
    {
        Self { values: Vec::new(), enclosing }
    }

    /// Binds `name` to `value` in this frame, in the place of an earlier
    /// binding of the name.
    pub fn define(&mut self, name: &str, value: Option<Object>)
        ensures
            final(self)@ == (EnvironmentView {
                values: old(self)@.values.insert(name@, optional_view(value)),
                enclosing: old(self)@.enclosing,
            }),
    {
        put_binding(&mut self.values, String::from_str(name), value);
    }

    /// The frame that encloses this one.
    pub fn get_enclosing(&self) -> (r: Option<usize>)
        ensures
            r == self@.enclosing,
    {
        self.enclosing
    }

    /// Reads `name` from the frame `env` of `heap` outward.
    pub fn get(heap: &Heap, env: usize, name: &Token) -> (r: Result<Object, InterpreterError>)
        ensures
            agrees(r, read(heap@.frames, env as int, name@)),
            r is Err ==> r->Err_0 is RuntimeError,
        decreases env,
    {
        if env >= heap.frames.len() {
            return Err(runtime_error(name, RuntimeErrorType::BugEnvironmentNotInit));
        }
        let frame = &heap.frames[env];
        assert(heap@.frames[env as int] == frame@);
        match find_binding(&frame.values, &name.lexeme) {
            Some(Some(value)) => Ok(value.clone()),
            Some(None) => Err(
                runtime_error(name, RuntimeErrorType::VariableIsNotInit(name.lexeme.clone())),
            ),
            None => match frame.enclosing {
                Some(outer) => if outer < env {
                    Environment::get(heap, outer, name)
                } else {
                    Err(runtime_error(name, RuntimeErrorType::BugEnvironmentNotInit))
                },
                None => Err(
                    runtime_error(name, RuntimeErrorType::UndefinedVariable(name.lexeme.clone())),
                ),
            },
        }
    }

    /// The frame that lies `distance` links outward of `env`.
    pub fn ancestor(heap: &Heap, env: Option<usize>, distance: usize) -> (r: Option<usize>)
        ensures
            r == ancestor(heap@.frames, env, distance as nat),
    {
        let mut current = env;
        let mut left = distance;
        while left > 0
            invariant
                ancestor(heap@.frames, env, distance as nat) == ancestor(
                    heap@.frames,
                    current,
                    left as nat,
                ),
            decreases left,
        {
            match current {
                Some(e) => {
                    if e < heap.frames.len() {
                        assert(heap@.frames[e as int] == heap.frames@[e as int]@);
                        current = heap.frames[e].enclosing;
                    } else {
                        return None;
                    }
                },
                None => {
                    return None;
                },
            }
            left -= 1;
        }
        current
    }

    /// Reads `name` from the frame `distance` links outward of `env`.
    pub fn get_at(heap: &Heap, env: Option<usize>, distance: usize, name: &Token) -> (r: Result<
        Object,
        InterpreterError,
    >)
        ensures
            agrees(r, read_at(heap@.frames, env, distance as nat, name@)),
            r is Err ==> r->Err_0 is RuntimeError,
    {
        match Environment::ancestor(heap, env, distance) {
            Some(frame) => Environment::get(heap, frame, name),
            None => Err(runtime_error(name, RuntimeErrorType::BugEnvironmentNotInit)),
        }
    }

    /// The first frame, from `env` outward, that holds `name`.
    fn holder(heap: &Heap, env: usize, name: &String) -> (r: Option<usize>)
        ensures
            match holder(heap@.frames, env as int, name@) {
                Some(frame) => r is Some && r->0 as int == frame && frame < heap.frames.len(),
                None => r is None,
            },
        decreases env,
    {
        if env >= heap.frames.len() {
            return None;
        }
        let frame = &heap.frames[env];
        assert(heap@.frames[env as int] == frame@);
        match find_binding(&frame.values, name) {
            Some(_) => Some(env),
            None => match frame.enclosing {
                Some(outer) => if outer < env {
                    Environment::holder(heap, outer, name)
                } else {
                    None
                },
                None => None,
            },
        }
    }

    /// Assigns `value` to `name` in the first frame, from `env` outward,
    /// that holds the name, and returns the value.
    pub fn assign(heap: &mut Heap, env: usize, name: &Token, value: Object) -> (r: Result<
        Object,
        InterpreterError,
    >)
        ensures
            final(heap)@.instances == old(heap)@.instances,
            match written(old(heap)@.frames, env as int, name@, value@) {
                Ok(frames) => r is Ok && r->Ok_0@ == value@ && final(heap)@.frames == frames,
                Err(error) => r is Err && r->Err_0@ == error && final(heap)@ == old(heap)@,
            },
    {
        match Environment::holder(heap, env, &name.lexeme) {
            Some(frame) => {
                let result = value.clone();
                heap.bind(frame, name.lexeme.clone(), Some(value));
                Ok(result)
            },
            None => Err(
                runtime_error(name, RuntimeErrorType::UndefinedVariable(name.lexeme.clone())),
            ),
        }
    }

    /// Assigns `value` to `name` in the frame `distance` links outward of
    /// `env`, and returns the value.
    pub fn assign_at(
        heap: &mut Heap,
        env: Option<usize>,
        distance: usize,
        name: &Token,
        value: Object,
    ) -> (r: Result<Object, InterpreterError>)
        ensures
            final(heap)@.instances == old(heap)@.instances,
            match written_at(old(heap)@.frames, env, distance as nat, name@, value@) {
                Ok(frames) => r is Ok && r->Ok_0@ == value@ && final(heap)@.frames == frames,
                Err(error) => r is Err && r->Err_0@ == error && final(heap)@ == old(heap)@,
            },
    {
        match Environment::ancestor(heap, env, distance) {
            Some(frame) => {
                if frame < heap.frames.len() {
                    let result = value.clone();
                    heap.bind(frame, name.lexeme.clone(), Some(value));
                    Ok(result)
                } else {
                    Err(runtime_error(name, RuntimeErrorType::BugEnvironmentNotInit))
                }
            },
            None => Err(runtime_error(name, RuntimeErrorType::BugEnvironmentNotInit)),
        }
    }
}

impl Heap {
    /// A heap without frames and without instances.
    pub fn new() -> (r: Self)
        ensures
            r@.frames.len() == 0,
            r@.instances.len() == 0,
    {
        Self { frames: Vec::new(), instances: Vec::new() }
    }

    /// Adds an empty frame inside `enclosing` and returns its index.
    pub fn allocate(&mut self, enclosing: Option<usize>) -> (r: usize)
        ensures
            r == old(self)@.frames.len(),
            final(self)@.frames == old(self)@.frames.push(
                EnvironmentView { values: Map::empty(), enclosing },
            ),
            final(self)@.instances == old(self)@.instances,
    {
        let index = self.frames.len();
        self.frames.push(Environment::new(enclosing));
        assert(self@.frames =~= old(self)@.frames.push(
            EnvironmentView { values: Map::empty(), enclosing },
        ));
        assert(self@.instances =~= old(self)@.instances);
        index
    }

    /// Binds `name` to `value` in the frame `env`.
    pub fn bind(&mut self, env: usize, name: String, value: Option<Object>)
        requires
            env < old(self)@.frames.len(),
        ensures
            final(self)@.frames == bound(
                old(self)@.frames,
                env as int,
                name@,
                optional_view(value),
            ),
            final(self)@.instances == old(self)@.instances,
    {
        put_binding(&mut self.frames[env].values, name, value);
        assert(self@.frames =~= bound(old(self)@.frames, env as int, name@, optional_view(value)));
        assert(self@.instances =~= old(self)@.instances);
    }

    /// Adds the fields of a new instance, none yet, and returns their
    /// index.
    pub fn new_instance(&mut self) -> (r: usize)
        ensures
            r == old(self)@.instances.len(),
            final(self)@.instances == old(self)@.instances.push(Map::empty()),
            final(self)@.frames == old(self)@.frames,
    {
        let index = self.instances.len();
        self.instances.push(Vec::new());
        assert(self@.instances =~= old(self)@.instances.push(Map::empty()));
        assert(self@.frames =~= old(self)@.frames);
        index
    }

    /// The field `name` of the instance whose fields stand at `instance`.
    pub fn field(&self, instance: usize, name: &String) -> (r: Option<Object>)
        ensures
            match r {
                Some(value) => instance < self@.instances.len()
                    && self@.instances[instance as int].contains_key(name@)
                    && self@.instances[instance as int][name@] == value@,
                None => !(instance < self@.instances.len()
                    && self@.instances[instance as int].contains_key(name@)),
            },
    {
        if instance >= self.instances.len() {
            return None;
        }
        assert(self@.instances[instance as int] == fields_view(self.instances@[instance as int]@));
        match find_field(&self.instances[instance], name) {
            Some(value) => Some(value.clone()),
            None => None,
        }
    }

    /// Writes the field `name` of the instance whose fields stand at
    /// `instance`.
    pub fn set_field(&mut self, instance: usize, name: String, value: Object)
        requires
            instance < old(self)@.instances.len(),
        ensures
            final(self)@.instances == old(self)@.instances.update(
                instance as int,
                old(self)@.instances[instance as int].insert(name@, value@),
            ),
            final(self)@.frames == old(self)@.frames,
    {
        put_field(&mut self.instances[instance], name, value);
        assert(self@.instances =~= old(self)@.instances.update(
            instance as int,
            old(self)@.instances[instance as int].insert(name@, value@),
        ));
        assert(self@.frames =~= old(self)@.frames);
    }
}

} // verus!
