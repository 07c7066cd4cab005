//! What holds of every evaluation.

use vstd::prelude::*;

use crate::interpreter::environment::ancestor;
use crate::interpreter::environment::bound;
use crate::interpreter::environment::read;
use crate::interpreter::environment::read_at;
use crate::interpreter::object::callable::NativeFunction;
use crate::interpreter::object::model::find_method;
use crate::interpreter::object::model::inner;
use crate::interpreter::object::model::sum;
use crate::interpreter::object::model::CallableView;
use crate::interpreter::object::model::ClassView;
use crate::interpreter::object::model::InstanceView;
use crate::interpreter::object::model::Value;
use crate::interpreter::parser::scopes::depth_of;
use crate::interpreter::parser::scopes::refer;
use crate::interpreter::parser::scopes::Resolution;
use crate::interpreter::scanner::token::TokenView;
use crate::interpreter::semantics::allocate;
use crate::interpreter::semantics::bind;
use crate::interpreter::semantics::bind_params;
use crate::interpreter::semantics::call;
use crate::interpreter::semantics::constructor;
use crate::interpreter::semantics::define;
use crate::interpreter::semantics::elapsed_reads;
use crate::interpreter::semantics::lookup;
use crate::interpreter::semantics::native;
use crate::interpreter::semantics::native_result;
use crate::interpreter::semantics::step;
use crate::interpreter::semantics::told;
use crate::interpreter::semantics::property;
use crate::interpreter::semantics::self_token;
use crate::interpreter::semantics::store;
use crate::interpreter::semantics::super_method;
use crate::interpreter::semantics::timed;
use crate::interpreter::environment::written;
use crate::interpreter::environment::written_at;
use crate::interpreter::semantics::Machine;

verus! {

/// A list and a value add up to the list with the value behind its last
/// element: one element more, the last of which is the value. A shared
/// handle around the list changes nothing.
pub proof fn lemma_list_plus_value(l: Value, x: Value)
    requires
        inner(l) is List,
    ensures
        sum(l, x) is Ok,
        sum(l, x)->Ok_0 is List,
        sum(l, x)->Ok_0->List_0.len() == inner(l)->List_0.len() + 1,
        sum(l, x)->Ok_0->List_0.last() == x,
        sum(l, x)->Ok_0->List_0.drop_last() == inner(l)->List_0,
{
    let items = inner(l)->List_0;
    assert(items.push(x).drop_last() =~= items);
}

/// A reference is read either at the depth that the resolver recorded
/// for its node, or from the globals where the resolver recorded none;
/// it is written in the same place. The resolver records a depth for a
/// node exactly where an open scope declares the name.
pub proof fn lemma_reference_is_local_or_global(
    m: Machine,
    st: Resolution,
    name: TokenView,
    id: u64,
    value: Value,
)
    ensures
        m.locals.contains_key(id) ==> lookup(m, name, id) == read_at(
            m.heap.frames,
            Some(m.env),
            m.locals[id] as nat,
            name,
        ),
        !m.locals.contains_key(id) ==> lookup(m, name, id) == read(
            m.heap.frames,
            m.globals as int,
            name,
        ),
        m.locals.contains_key(id) ==> store(m, name, id, value).result is Ok == written_at(
            m.heap.frames,
            Some(m.env),
            m.locals[id] as nat,
            name,
            value,
        ) is Ok,
        !m.locals.contains_key(id) ==> store(m, name, id, value).result is Ok == written(
            m.heap.frames,
            m.globals as int,
            name,
            value,
        ) is Ok,
        depth_of(st.scopes, name.lexeme) is Some ==> refer(st, id, name.lexeme).locals
            == st.locals.insert(id, depth_of(st.scopes, name.lexeme)->0 as usize),
        depth_of(st.scopes, name.lexeme) is None ==> refer(st, id, name.lexeme) == st,
{
}

/// Calling a class yields the new instance of that class, whatever its
/// initializer returns: where the call has a value, the value is the
/// instance whose fields were added last.
pub proof fn lemma_construction_yields_the_instance(
    host: Seq<Value>,
    m: Machine,
    class: ClassView,
    args: Seq<Value>,
    fuel: int,
)
    ensures
        call(host, m, constructor(class), args, fuel).result is Ok ==> call(
            host,
            m,
            constructor(class),
            args,
            fuel,
        ).result == Ok::<Value, crate::interpreter::error::InterpreterErrorView>(
            Value::Instance(InstanceView { class, fields: m.heap.instances.len() as usize }),
        ),
{
}

/// Binding a parameter in the frame `frame` leaves every other frame as
/// it is, and changes neither the number of frames nor the links
/// between them.
proof fn lemma_bind_params_frames(
    m: Machine,
    frame: usize,
    params: Seq<TokenView>,
    args: Seq<Value>,
    from: int,
)
    requires
        0 <= from,
    ensures
        bind_params(m, frame, params, args, from).heap.frames.len() == m.heap.frames.len(),
        forall|k: int|
            0 <= k < m.heap.frames.len() ==> #[trigger] bind_params(
                m,
                frame,
                params,
                args,
                from,
            ).heap.frames[k].enclosing == m.heap.frames[k].enclosing,
        forall|k: int|
            0 <= k < m.heap.frames.len() && k != frame ==> #[trigger] bind_params(
                m,
                frame,
                params,
                args,
                from,
            ).heap.frames[k] == m.heap.frames[k],
    decreases params.len() - from,
{
    if from < params.len() && from < args.len() {
        let next = define(m, frame, params[from].lexeme, Some(args[from]));
        lemma_bind_params_frames(next, frame, params, args, from + 1);
    }
}

/// A bound method finds its instance under `self`: read from the frame
/// of the bound method, `self` is the instance that the method was bound
/// to; and at the start of a call of the bound method, `self` is that
/// instance one scope outside the frame of the body, whatever the
/// parameters are called.
pub proof fn lemma_bound_method_sees_its_instance(
    m: Machine,
    method: CallableView,
    instance: InstanceView,
    params: Seq<TokenView>,
    args: Seq<Value>,
)
    requires
        m.heap.frames.len() < usize::MAX,
    ensures
        ({
            let b = bind(m, method, instance);
            let body = b.machine.heap.frames.len() as usize;
            let ready = bind_params(allocate(b.machine, b.callable.closure), body, params, args, 0);
            &&& b.callable.closure == Some(m.heap.frames.len() as usize)
            &&& b.callable.declaration == method.declaration
            &&& b.callable.is_init == method.is_init
            &&& b.callable.id == method.id
            &&& read(b.machine.heap.frames, m.heap.frames.len() as int, self_token()) == Ok::<
                Value,
                crate::interpreter::error::InterpreterErrorView,
            >(Value::Instance(instance))
            &&& read_at(ready.heap.frames, Some(body), 1, self_token()) == Ok::<
                Value,
                crate::interpreter::error::InterpreterErrorView,
            >(Value::Instance(instance))
        }),
{
    let b = bind(m, method, instance);
    let own = m.heap.frames.len() as usize;
    let body = b.machine.heap.frames.len() as usize;
    let opened = allocate(b.machine, b.callable.closure);
    let ready = bind_params(opened, body, params, args, 0);
    lemma_bind_params_frames(opened, body, params, args, 0);
    assert(b.machine.heap.frames[own as int].values.contains_key("self"@));
    assert(opened.heap.frames[body as int].enclosing == Some(own));
    assert(ready.heap.frames[own as int] == opened.heap.frames[own as int]);
    assert(ready.heap.frames[body as int].enclosing == Some(own));
    assert(ancestor(ready.heap.frames, Some(body), 1) == ancestor(
        ready.heap.frames,
        Some(own),
        0,
    ));
}

/// A method that is read from an instance is the method that the chain of
/// the instance's class gives for the name, bound to that instance:
/// unless a field of the instance has the name first.
pub proof fn lemma_method_is_bound_to_its_instance(m: Machine, instance: InstanceView, name: TokenView)
    requires
        !(instance.fields < m.heap.instances.len() && m.heap.instances[instance.fields as int].contains_key(
            name.lexeme,
        )),
        find_method(instance.class, name.lexeme) is Some,
    ensures
        property(m, instance, name).result == Ok::<
            Value,
            crate::interpreter::error::InterpreterErrorView,
        >(Value::Callable(bind(m, find_method(instance.class, name.lexeme)->0, instance).callable)),
        property(m, instance, name).machine == bind(
            m,
            find_method(instance.class, name.lexeme)->0,
            instance,
        ).machine,
{
}

/// `super.method` inside a method of a subclass of `parent` is the method
/// that the chain of `parent` gives for the name, bound to the instance
/// that `self` names in the running method.
pub proof fn lemma_super_binds_the_same_self(
    m: Machine,
    id: u64,
    keyword: TokenView,
    method: TokenView,
    parent: ClassView,
    instance: InstanceView,
)
    requires
        m.locals.contains_key(id),
        m.locals[id] > 0,
        read_at(m.heap.frames, Some(m.env), m.locals[id] as nat, keyword) is Ok,
        inner(read_at(m.heap.frames, Some(m.env), m.locals[id] as nat, keyword)->Ok_0)
            == Value::Class(parent),
        read_at(m.heap.frames, Some(m.env), (m.locals[id] - 1) as nat, self_token()) == Ok::<
            Value,
            crate::interpreter::error::InterpreterErrorView,
        >(Value::Instance(instance)),
        find_method(parent, method.lexeme) is Some,
    ensures
        super_method(m, id, keyword, method).result == Ok::<
            Value,
            crate::interpreter::error::InterpreterErrorView,
        >(Value::Callable(bind(m, find_method(parent, method.lexeme)->0, instance).callable)),
        super_method(m, id, keyword, method).machine == bind(
            m,
            find_method(parent, method.lexeme)->0,
            instance,
        ).machine,
{
}

/// A function of the host that reads no clock leaves the machine as it
/// is, whatever the clock would say. One that reads a clock (`clock`,
/// `instant`, and `elapsed` of a reading that `instant` handed out)
/// returns the next reading of the host, which the machine has then
/// heard; only where the host has no more readings does the model stop.
pub proof fn lemma_clocks_hear_the_host(
    host: Seq<Value>,
    m: Machine,
    function: NativeFunction,
    args: Seq<Value>,
)
    ensures
        timed(native_result(function, args)) <==> function is Clock || function is Instant || (
        function is Elapsed && elapsed_reads(args)),
        !timed(native_result(function, args)) ==> native(host, m, function, args) == step(
            m,
            native_result(function, args),
        ),
        timed(native_result(function, args)) && m.heard.len() < host.len() ==> native(
            host,
            m,
            function,
            args,
        ) == step(
            Machine { heard: m.heard.push(host[m.heard.len() as int]), ..m },
            Ok(host[m.heard.len() as int]),
        ),
        timed(native_result(function, args)) && m.heard.len() >= host.len() ==> timed(
            native(host, m, function, args).result,
        ),
{
}

/// A host goes on where the readings heard end if it holds exactly
/// those readings; so the contracts of the evaluator speak of the run
/// with the readings that were heard.
pub proof fn lemma_heard_is_told(heard: Seq<Value>)
    ensures
        told(heard, heard),
{
}

} // verus!
