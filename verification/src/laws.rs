//! Laws of the language, proved from the definitions of its operators and
//! of its evaluator.

use crate::ast::Expr;
use crate::ast::LoopType;
use crate::ast::Stmt;
use crate::class::bound;
use crate::class::class_arity;
use crate::class::find_method;
use crate::class::instance_get;
use crate::class::instance_set;
use crate::class::this_scope;
use crate::environment::env_assign;
use crate::environment::env_define;
use crate::environment::env_lookup;
use crate::environment::find_binding;
use crate::environment::find_scope;
use crate::environment::scope_define;
use crate::environment::scope_get;
use crate::environment::scope_has;
use crate::number::Number;
use crate::operators::assign_value;
use crate::operators::element_at;
use crate::operators::equal_values;
use crate::operators::flipped;
use crate::operators::truthy;
use crate::operators::unequal_values;
use crate::operators::wrap_index;
use crate::place::fault_at;
use crate::place::items_of;
use crate::place::rebuilt;
use crate::place::PlaceModel;
use crate::semantics::call_function;
use crate::semantics::bound_count;
use crate::shape::lemma_block_keeps;
use crate::shape::lemma_params_keep;
use crate::shape::lemma_bound_name_is_found;
use crate::semantics::call_value;
use crate::semantics::done;
use crate::semantics::entered;
use crate::semantics::eval;
use crate::semantics::eval_assign;
use crate::semantics::eval_field_set;
use crate::semantics::eval_index_set;
use crate::semantics::resolve;
use crate::place::read_place;
use crate::semantics::failed;
use crate::semantics::eval_super;
use crate::semantics::exec;
use crate::semantics::exec_block;
use crate::semantics::exec_while;
use crate::semantics::flatten;
use crate::semantics::loop_body;
use crate::semantics::post_steps;
use crate::semantics::slot_assigned;
use crate::semantics::with_env;
use crate::semantics::Called;
use crate::semantics::State;
use crate::text::arity_message;
use crate::token::Fault;
use crate::token::TokenModel;
use crate::token::TokenType;
use crate::value::BindingValue;
use crate::value::CallableValue;
use crate::value::ClassValue;
use crate::value::FunctionValue;
use crate::value::InstanceValue;
use crate::value::Signal;
use crate::value::Value;
use vstd::prelude::*;

verus! {

/// Whether `==` compares the value: nil, a boolean, a number or a string.
pub open spec fn comparable(v: Option<Value>) -> bool {
    v is None || v matches Some(Value::Boolean(_)) || v matches Some(Value::Number(_)) || v matches Some(
        Value::String(_),
    )
}

/// Every value that `==` compares is equal to itself, and not unequal to
/// itself, unless it is a NaN.
pub proof fn law_equality_is_reflexive(v: Option<Value>)
    requires
        comparable(v),
        !(v matches Some(Value::Number(x)) && x.is_nan()),
    ensures
        equal_values(v, v) == Some(Value::Boolean(true)),
        unequal_values(v, v) == Some(Value::Boolean(false)),
{
}

/// A NaN is not equal to itself.
pub proof fn law_nan_is_not_equal_to_itself(x: Number)
    requires
        x.is_nan(),
    ensures
        equal_values(Some(Value::Number(x)), Some(Value::Number(x))) == Some(Value::Boolean(false)),
        unequal_values(Some(Value::Number(x)), Some(Value::Number(x))) == Some(Value::Boolean(true)),
{
}

/// `!!v` is the truthiness of `v`, for every `v` that is not a collection.
pub proof fn law_double_negation_is_truthiness(v: Option<Value>)
    requires
        !(v matches Some(Value::Collection(_))),
    ensures
        flipped(flipped(v)) == Some(Value::Boolean(truthy(v))),
{
}

/// `!c` is the collection `c` reversed, and `!!c` is `c`.
pub proof fn law_flip_reverses_a_collection(c: Seq<Option<Value>>)
    ensures
        flipped(Some(Value::Collection(c))) == Some(Value::Collection(c.reverse())),
        flipped(flipped(Some(Value::Collection(c)))) == Some(Value::Collection(c)),
{
    assert(c.reverse().reverse() =~= c);
}

/// An index names the slot that its remainder by the length names: the
/// wrapped index lies in the collection, and moving an index by the length
/// changes nothing.
pub proof fn law_index_wraps_by_length(c: Seq<Option<Value>>, n: Number, i: int)
    requires
        c.len() > 0,
    ensures
        0 <= wrap_index(i, c.len() as int) < c.len(),
        wrap_index(i, c.len() as int) == wrap_index(i % (c.len() as int), c.len() as int),
        wrap_index(i + c.len(), c.len() as int) == wrap_index(i, c.len() as int),
        wrap_index(i - c.len(), c.len() as int) == wrap_index(i, c.len() as int),
        element_at(c, n) == c[wrap_index(n.truncation() as int, c.len() as int)],
{
    let len = c.len() as int;
    vstd::arithmetic::div_mod::lemma_mod_twice(i, len);
    vstd::arithmetic::div_mod::lemma_mod_add_multiples_vanish(i, len);
    vstd::arithmetic::div_mod::lemma_mod_sub_multiples_vanish(i, len);
}

/// Two indices that differ by a multiple of the length name one slot.
pub proof fn law_congruent_indices_name_one_slot(c: Seq<Option<Value>>, n: Number, m: Number)
    requires
        c.len() > 0,
        (n.truncation() - m.truncation()) % (c.len() as int) == 0,
    ensures
        element_at(c, n) == element_at(c, m),
{
    vstd::arithmetic::div_mod::lemma_mod_equivalence(
        n.truncation() as int,
        m.truncation() as int,
        c.len() as int,
    );
}

/// The names of a scope stay where they are when one of them is defined.
proof fn lemma_define_keeps_places(scope: Seq<BindingValue>, a: Seq<char>, v: Option<Value>, x: Seq<char>, from: int)
    requires
        0 <= from <= scope.len(),
    ensures
        find_binding(scope, x, from) < scope.len() ==> find_binding(scope_define(scope, a, v), x, from)
            == find_binding(scope, x, from),
        find_binding(scope, x, from) >= scope.len() && x != a ==> find_binding(
            scope_define(scope, a, v),
            x,
            from,
        ) >= scope_define(scope, a, v).len(),
        find_binding(scope, x, from) >= scope.len() && x == a && find_binding(scope, a, 0) >= scope.len()
            ==> find_binding(scope_define(scope, a, v), x, from) == scope.len(),
        from <= find_binding(scope, x, from) <= scope.len(),
    decreases scope.len() - from,
{
    let after = scope_define(scope, a, v);
    let at = find_binding(scope, a, 0);
    lemma_find_in_range(scope, a, 0);
    if from < scope.len() {
        assert(after[from].name == scope[from].name);
        if scope[from].name != x {
            lemma_define_keeps_places(scope, a, v, x, from + 1);
        }
    } else {
        if at >= scope.len() {
            assert(after.len() == scope.len() + 1);
            assert(after[from].name == a);
            if x != a {
                assert(find_binding(after, x, from + 1) == after.len());
            }
        }
    }
}

/// What a search gives lies between its start and the scope's length.
proof fn lemma_find_in_range(scope: Seq<BindingValue>, x: Seq<char>, from: int)
    requires
        0 <= from <= scope.len(),
    ensures
        from <= find_binding(scope, x, from) <= scope.len(),
        find_binding(scope, x, from) < scope.len() ==> scope[find_binding(scope, x, from)].name == x,
    decreases scope.len() - from,
{
    if from < scope.len() && scope[from].name != x {
        lemma_find_in_range(scope, x, from + 1);
    }
}

/// Defining a name in a scope gives the name its value and leaves every
/// other name with what it had.
pub proof fn law_define_is_local(scope: Seq<BindingValue>, a: Seq<char>, v: Option<Value>, x: Seq<char>)
    ensures
        scope_has(scope_define(scope, a, v), a),
        scope_get(scope_define(scope, a, v), a) == v,
        x != a ==> scope_has(scope_define(scope, a, v), x) == scope_has(scope, x),
        x != a && scope_has(scope, x) ==> scope_get(scope_define(scope, a, v), x) == scope_get(scope, x),
{
    lemma_define_keeps_places(scope, a, v, x, 0);
    lemma_define_keeps_places(scope, a, v, a, 0);
    lemma_find_in_range(scope, a, 0);
    lemma_find_in_range(scope, x, 0);
}

/// The scope in which a name is found stays the same when a scope that has
/// `a` gets `a` defined again.
proof fn lemma_assign_keeps_scopes(
    env: Seq<Seq<BindingValue>>,
    a: Seq<char>,
    v: Option<Value>,
    at: int,
    x: Seq<char>,
    from: int,
)
    requires
        0 <= at < env.len(),
        scope_has(env[at], a),
        -1 <= from < env.len(),
    ensures
        find_scope(env.update(at, scope_define(env[at], a, v)), x, from) == find_scope(env, x, from),
    decreases from + 1,
{
    let after = env.update(at, scope_define(env[at], a, v));
    if from >= 0 {
        law_define_is_local(env[at], a, v, x);
        assert(scope_has(after[from], x) == scope_has(env[from], x));
        if !scope_has(env[from], x) {
            lemma_assign_keeps_scopes(env, a, v, at, x, from - 1);
        }
    }
}

/// What a search for a scope gives is a scope that has the name, or -1.
proof fn lemma_found_scope_has(env: Seq<Seq<BindingValue>>, x: Seq<char>, from: int)
    requires
        -1 <= from < env.len(),
    ensures
        -1 <= find_scope(env, x, from) <= from,
        find_scope(env, x, from) >= 0 ==> scope_has(env[find_scope(env, x, from)], x),
    decreases from + 1,
{
    if from >= 0 && !scope_has(env[from], x) {
        lemma_found_scope_has(env, x, from - 1);
    }
}

/// An assignment to a variable gives the variable its value and leaves
/// every other variable, in every scope, with what it had.
pub proof fn law_assignment_is_local(env: Seq<Seq<BindingValue>>, a: Seq<char>, v: Option<Value>, x: Seq<char>)
    requires
        env_assign(env, a, v) is Some,
    ensures
        env_lookup(env_assign(env, a, v)->Some_0, a) == Some(v),
        x != a ==> env_lookup(env_assign(env, a, v)->Some_0, x) == env_lookup(env, x),
{
    let at = find_scope(env, a, env.len() - 1);
    lemma_found_scope_has(env, a, env.len() - 1);
    lemma_found_scope_has(env, x, env.len() - 1);
    lemma_assign_keeps_scopes(env, a, v, at, a, env.len() - 1);
    lemma_assign_keeps_scopes(env, a, v, at, x, env.len() - 1);
    law_define_is_local(env[at], a, v, x);
}

/// A name bound in the innermost scope is found there, whatever the
/// enclosing scopes bind it to.
pub proof fn law_innermost_binding_shadows(env: Seq<Seq<BindingValue>>, x: Seq<char>)
    requires
        env.len() >= 1,
        scope_has(env.last(), x),
    ensures
        env_lookup(env, x) == Some(scope_get(env.last(), x)),
{
}

/// A name that was just defined is found with its value.
pub proof fn law_define_then_lookup(env: Seq<Seq<BindingValue>>, a: Seq<char>, v: Option<Value>)
    ensures
        env_lookup(env_define(env, a, v), a) == Some(v),
{
    let after = env_define(env, a, v);
    if env.len() == 0 {
        law_define_is_local(Seq::empty(), a, v, a);
    } else {
        law_define_is_local(env.last(), a, v, a);
    }
    assert(scope_has(after.last(), a));
}

/// A function declaration binds the name to a function that holds the
/// environment as it was before the declaration: what is defined later,
/// the function's own name too, is not seen by its body.
pub proof fn law_function_captures_the_environment(declaration: std::rc::Rc<crate::ast::FunctionDecl>, s: State, fuel: nat)
    requires
        fuel > 0,
    ensures
        exec(Stmt::Function { declaration }, s, fuel).result == Ok::<Option<Value>, Fault>(None),
        env_lookup(exec(Stmt::Function { declaration }, s, fuel).state.env, declaration.name@.lexeme) == Some(
            Some(crate::semantics::declared(declaration, s.env)),
        ),
        crate::semantics::declared(declaration, s.env)->Function_0->User_0.closure == s.env,
{
    law_define_then_lookup(
        s.env,
        declaration.name@.lexeme,
        Some(crate::semantics::declared(declaration, s.env)),
    );
}

/// A field that was just set is read with its value, and every other field
/// is read as before.
pub proof fn law_field_set_then_get(instance: InstanceValue, name: TokenModel, v: Option<Value>, other: TokenModel)
    ensures
        instance_get(instance_set(instance, name.lexeme, v), name) == Ok::<Option<Value>, Fault>(v),
        other.lexeme != name.lexeme && scope_has(instance.fields, other.lexeme) ==> instance_get(
            instance_set(instance, name.lexeme, v),
            other,
        ) == instance_get(instance, other),
{
    law_define_is_local(instance.fields, name.lexeme, v, other.lexeme);
}

/// After an assignment to a slot of the collection or string that variable
/// `a` holds, `a` holds the updated collection or string, and every other
/// variable holds what it held.
pub proof fn law_slot_assignment_is_local(
    a: TokenModel,
    n: Number,
    op: Option<TokenType>,
    rhs: Option<Value>,
    env: Seq<Seq<BindingValue>>,
    x: Seq<char>,
)
    requires
        slot_assigned(PlaceModel::Var(a), a, n, op, rhs, env) is Ok,
    ensures
        ({
            let (after, stored) = slot_assigned(PlaceModel::Var(a), a, n, op, rhs, env)->Ok_0;
            let whole = env_lookup(env, a.lexeme)->Some_0;
            let items = items_of(whole)->Some_0;
            &&& env_lookup(env, a.lexeme) is Some
            &&& items_of(whole) is Some
            &&& items.len() > 0
            &&& env_lookup(after, a.lexeme) == Some(
                rebuilt(whole, items.update(wrap_index(n.truncation() as int, items.len() as int), stored)),
            )
            &&& x != a.lexeme ==> env_lookup(after, x) == env_lookup(env, x)
        }),
{
    let whole = env_lookup(env, a.lexeme)->Some_0;
    let items = items_of(whole)->Some_0;
    let k = wrap_index(n.truncation() as int, items.len() as int);
    let stored = slot_assigned(PlaceModel::Var(a), a, n, op, rhs, env)->Ok_0.1;
    law_assignment_is_local(env, a.lexeme, rebuilt(whole, items.update(k, stored)), x);
}

/// A call of a class with the wrong number of arguments is the arity error,
/// and nothing has changed: no instance was made and no initializer ran.
pub proof fn law_class_arity_is_checked_first(
    c: ClassValue,
    args: Seq<Option<Value>>,
    in_new_scope: bool,
    paren: TokenModel,
    otherwise: Fault,
    s: State,
    fuel: nat,
)
    requires
        class_arity(c) != args.len(),
    ensures
        call_value(Some(Value::Class(c)), args, in_new_scope, paren, otherwise, s, fuel) == (Called {
            state: s,
            result: Err(fault_at(paren, arity_message(class_arity(c), args.len()))),
            this_after: None,
        }),
{
}

/// A call of an initializer that ends without an error gives what `this`
/// is bound to when its body ends, whatever the body returned.
pub proof fn law_initializer_returns_this(
    f: FunctionValue,
    args: Seq<Option<Value>>,
    in_new_scope: bool,
    s: State,
    fuel: nat,
)
    requires
        f.is_initializer,
        call_function(f, args, in_new_scope, s, fuel).result is Ok,
        call_function(f, args, in_new_scope, s, fuel).this_after is Some,
    ensures
        call_function(f, args, in_new_scope, s, fuel).result == Ok::<Option<Value>, Fault>(
            call_function(f, args, in_new_scope, s, fuel).this_after->Some_0,
        ),
{
}

/// An initializer called on an instance, where the call ends without an
/// error, finds `this` bound when its body ends, and gives what it is bound
/// to: the instance as the body left it, not what the body returned.
pub proof fn law_bound_initializer_returns_this(
    init: FunctionValue,
    instance: InstanceValue,
    args: Seq<Option<Value>>,
    in_new_scope: bool,
    s: State,
    fuel: nat,
)
    requires
        init.is_initializer,
        call_function(bound(init, instance), args, in_new_scope, s, fuel).result is Ok,
    ensures
        call_function(bound(init, instance), args, in_new_scope, s, fuel).this_after is Some,
        call_function(bound(init, instance), args, in_new_scope, s, fuel).result == Ok::<Option<Value>, Fault>(
            call_function(bound(init, instance), args, in_new_scope, s, fuel).this_after->Some_0,
        ),
{
    let f = bound(init, instance);
    let base = if in_new_scope {
        f.closure.push(Seq::empty())
    } else {
        f.closure
    };
    let start = entered(s, f, args, in_new_scope);
    let body = exec_block(f.declaration.body@, 0, None, start, (fuel - 1) as nat);
    let at = init.closure.len() as int;
    assert(base[at] == this_scope(instance));
    assert(this_scope(instance)[0].name == "this"@);
    assert(find_binding(this_scope(instance), "this"@, 0) == 0);
    assert(scope_has(base[at], "this"@));
    lemma_params_keep(base, f.declaration.params@, args, bound_count(f.declaration.params@, args));
    lemma_block_keeps(f.declaration.body@, 0, None, start, (fuel - 1) as nat);
    lemma_bound_name_is_found(body.state.env, "this"@, at, body.state.env.len() - 1);
}

/// A bound method finds its instance under `this`.
pub proof fn law_bound_method_sees_this(f: FunctionValue, instance: InstanceValue)
    ensures
        env_lookup(bound(f, instance).closure, "this"@) == Some(Some(Value::Instance(instance))),
        bound(f, instance).declaration == f.declaration,
{
    let scope = this_scope(instance);
    let env = bound(f, instance).closure;
    assert(scope[0].name == "this"@);
    assert(find_binding(scope, "this"@, 0) == 0);
    assert(env[env.len() - 1] == scope);
    assert(find_scope(env, "this"@, env.len() - 1) == env.len() - 1);
}

/// `super.method`, where `this` is an instance of a class whose superclass
/// has the method, is that method of the superclass, bound to an instance
/// that has the fields of the current `this`.
pub proof fn law_super_binds_the_current_instance(keyword: TokenModel, method: TokenModel, s: State)
    requires
        env_lookup(s.env, "this"@) matches Some(Some(Value::Instance(i))) && i.class.super_class is Some
            && find_method(*i.class.super_class->Some_0, method.lexeme) is Some,
    ensures
        ({
            let i = env_lookup(s.env, "this"@)->Some_0->Some_0->Instance_0;
            let parent = *i.class.super_class->Some_0;
            let m = find_method(parent, method.lexeme)->Some_0;
            let receiver = InstanceValue { class: parent, fields: i.fields };
            &&& eval_super(keyword, method, s) == done(
                s,
                Some(Value::Function(CallableValue::User(bound(m, receiver)))),
            )
            &&& bound(m, receiver).declaration == m.declaration
            &&& env_lookup(bound(m, receiver).closure, "this"@) == Some(Some(Value::Instance(receiver)))
        }),
{
    let i = env_lookup(s.env, "this"@)->Some_0->Some_0->Instance_0;
    let parent = *i.class.super_class->Some_0;
    let m = find_method(parent, method.lexeme)->Some_0;
    law_bound_method_sees_this(m, InstanceValue { class: parent, fields: i.fields });
}

/// A statement that ends in the marker of a `return` ends the block it
/// stands in, at any depth of nesting, with that marker.
pub proof fn law_return_ends_the_block(stmts: Seq<Stmt>, i: int, pending: Option<Value>, s: State, fuel: nat)
    requires
        0 <= i < stmts.len(),
        exec(stmts[i], s, fuel).result matches Ok(Some(Value::Return(_))),
    ensures
        exec_block(stmts, i, pending, s, fuel) == exec(stmts[i], s, fuel),
{
}

/// A block statement hands out the marker that its statements ended in.
pub proof fn law_block_hands_the_marker_out(statements: Vec<Stmt>, s: State, fuel: nat)
    requires
        fuel > 0,
    ensures
        exec(Stmt::Block { statements }, s, fuel).result == exec_block(
            statements@,
            0,
            None,
            with_env(s, s.env.push(Seq::empty())),
            (fuel - 1) as nat,
        ).result,
{
}

/// The call of a function that is no initializer, whose body ended in the
/// marker of a `return`, gives the returned value: the marker goes no
/// further than the call.
pub proof fn law_call_consumes_the_return(
    f: FunctionValue,
    args: Seq<Option<Value>>,
    in_new_scope: bool,
    s: State,
    fuel: nat,
)
    requires
        fuel > 0,
        !f.is_initializer,
        exec_block(f.declaration.body@, 0, None, entered(s, f, args, in_new_scope), (fuel - 1) as nat).result matches Ok(
            Some(Value::Return(_)),
        ),
    ensures
        call_function(f, args, in_new_scope, s, fuel).result == Ok::<Option<Value>, Fault>(
            *exec_block(
                f.declaration.body@,
                0,
                None,
                entered(s, f, args, in_new_scope),
                (fuel - 1) as nat,
            ).result->Ok_0->Some_0->Return_0,
        ),
        call_function(f, args, in_new_scope, s, fuel).state.env == s.env,
{
}

/// A loop whose body ends in the marker of a `return` ends with that
/// marker.
pub proof fn law_return_ends_the_loop(condition: Expr, body: Stmt, loop_type: LoopType, s: State, fuel: nat)
    requires
        eval(condition, s, fuel).result matches Ok(v) && truthy(v),
        loop_body(body, eval(condition, s, fuel).state, fuel).result matches Ok(Some(Value::Return(_))),
    ensures
        exec_while(condition, body, loop_type, s, fuel) == loop_body(body, eval(condition, s, fuel).state, fuel),
{
}

/// `break` ends the loop whose body it ended, and that loop gives nil: an
/// enclosing loop does not see the signal.
pub proof fn law_break_ends_the_innermost_loop(
    condition: Expr,
    body: Stmt,
    loop_type: LoopType,
    s: State,
    fuel: nat,
)
    requires
        eval(condition, s, fuel).result matches Ok(v) && truthy(v),
        loop_body(body, eval(condition, s, fuel).state, fuel).result == Ok::<Option<Value>, Fault>(
            Some(Value::Keyword(Signal::Break)),
        ),
    ensures
        exec_while(condition, body, loop_type, s, fuel) == done(
            loop_body(body, eval(condition, s, fuel).state, fuel).state,
            None,
        ),
{
}

/// `continue` in a loop whose body is a block runs the post-steps of the
/// loop, and then the loop goes on from the state they left.
pub proof fn law_continue_runs_the_post_steps(
    condition: Expr,
    body: Stmt,
    loop_type: LoopType,
    s: State,
    fuel: nat,
)
    requires
        fuel > 0,
        body is Block,
        eval(condition, s, fuel).result matches Ok(v) && truthy(v),
        loop_body(body, eval(condition, s, fuel).state, fuel).result == Ok::<Option<Value>, Fault>(
            Some(Value::Keyword(Signal::Continue)),
        ),
        post_steps(
            flatten(body),
            loop_type,
            loop_body(body, eval(condition, s, fuel).state, fuel).state,
            fuel,
        ).result is Ok,
    ensures
        exec_while(condition, body, loop_type, s, fuel) == exec_while(
            condition,
            body,
            loop_type,
            post_steps(
                flatten(body),
                loop_type,
                loop_body(body, eval(condition, s, fuel).state, fuel).state,
                fuel,
            ).state,
            (fuel - 1) as nat,
        ),
{
}

/// The post-step of a `for` loop is the last statement of its body.
pub proof fn law_for_post_step_is_the_last_statement(stmts: Seq<Stmt>, s: State, fuel: nat)
    requires
        stmts.len() >= 1,
    ensures
        post_steps(stmts, LoopType::For, s, fuel) == exec(stmts[stmts.len() - 1], s, fuel),
{
}

/// The base kind of a value: what a strong variant is pinned to.
pub open spec fn base_kind(v: Option<Value>) -> int {
    match v {
        Some(Value::Number(_)) => 1,
        Some(Value::StrongNumber(_)) => 1,
        Some(Value::String(_)) => 2,
        Some(Value::StrongString(_)) => 2,
        Some(Value::Boolean(_)) => 3,
        Some(Value::StrongBoolean(_)) => 3,
        _ => 0,
    }
}

/// Whether a value is one of the three strong variants.
pub open spec fn strong(v: Option<Value>) -> bool {
    v matches Some(Value::StrongNumber(_)) || v matches Some(Value::StrongString(_)) || v matches Some(
        Value::StrongBoolean(_),
    )
}

/// A plain assignment to storage that holds a strong variant is refused
/// exactly when the value's base kind is another one; a value it accepts is
/// stored as the strong variant of that kind.
pub proof fn law_strong_variant_is_pinned(current: Option<Value>, value: Option<Value>)
    requires
        strong(current),
    ensures
        assign_value(None, current, value) is Err <==> base_kind(value) != base_kind(current),
        assign_value(None, current, value) is Err ==> assign_value(None, current, value) == Err::<
            Option<Value>,
            Seq<char>,
        >("Invalid assign"@),
        assign_value(None, current, value) matches Ok(stored) ==> strong(stored) && base_kind(stored)
            == base_kind(current),
{
}

/// An assignment to a name that holds a strong variant, of a value of
/// another base kind, is the error at the name, and the name holds what it
/// held.
pub proof fn law_pinned_name_rejects_other_kinds(name: TokenModel, value: Expr, s: State, fuel: nat)
    requires
        eval(value, s, fuel).result is Ok,
        env_lookup(eval(value, s, fuel).state.env, name.lexeme) is Some,
        strong(env_lookup(eval(value, s, fuel).state.env, name.lexeme)->Some_0),
        base_kind(eval(value, s, fuel).result->Ok_0) != base_kind(
            env_lookup(eval(value, s, fuel).state.env, name.lexeme)->Some_0,
        ),
    ensures
        eval_assign(name, None, value, s, fuel) == failed(
            eval(value, s, fuel).state,
            fault_at(name, "Invalid assign"@),
        ),
{
    law_strong_variant_is_pinned(
        env_lookup(eval(value, s, fuel).state.env, name.lexeme)->Some_0,
        eval(value, s, fuel).result->Ok_0,
    );
}

/// An assignment to a slot of what is neither a collection nor a string is
/// the error at the name, before the index and the value are evaluated: the
/// state is the one in which the object's place was found.
pub proof fn law_index_assignment_looks_at_the_object_first(
    object: Expr,
    name: TokenModel,
    index: Expr,
    op: Option<TokenType>,
    value: Expr,
    s: State,
    fuel: nat,
)
    requires
        resolve(object, s, fuel).result is Ok,
        read_place(resolve(object, s, fuel).result->Ok_0, resolve(object, s, fuel).state.env) is Ok,
        items_of(
            read_place(resolve(object, s, fuel).result->Ok_0, resolve(object, s, fuel).state.env)->Ok_0,
        ) is None,
    ensures
        eval_index_set(object, name, index, op, value, s, fuel) == failed(
            resolve(object, s, fuel).state,
            fault_at(name, "Only list types can be indexed."@),
        ),
{
}

/// An assignment to a slot of a variable that holds neither a collection nor
/// a string is the error at the name, and nothing has changed: neither the
/// index nor the value was evaluated.
pub proof fn law_index_assignment_to_no_list_changes_nothing(
    variable: crate::token::Token,
    name: TokenModel,
    index: Expr,
    op: Option<TokenType>,
    value: Expr,
    s: State,
    fuel: nat,
)
    requires
        fuel > 0,
        env_lookup(s.env, variable@.lexeme) is Some,
        items_of(env_lookup(s.env, variable@.lexeme)->Some_0) is None,
    ensures
        eval_index_set(Expr::Var { name: variable }, name, index, op, value, s, fuel) == failed(
            s,
            fault_at(name, "Only list types can be indexed."@),
        ),
{
}

/// An assignment to a field of what is no instance is the error at the
/// name, before the value is evaluated: the state is the one in which the
/// object's place was found.
pub proof fn law_field_assignment_looks_at_the_object_first(
    object: Expr,
    name: TokenModel,
    op: Option<TokenType>,
    value: Expr,
    s: State,
    fuel: nat,
)
    requires
        resolve(object, s, fuel).result is Ok,
        read_place(resolve(object, s, fuel).result->Ok_0, resolve(object, s, fuel).state.env) is Ok,
        !(read_place(
            resolve(object, s, fuel).result->Ok_0,
            resolve(object, s, fuel).state.env,
        )->Ok_0 matches Some(Value::Instance(_))),
    ensures
        eval_field_set(object, name, op, value, s, fuel) == failed(
            resolve(object, s, fuel).state,
            fault_at(name, "Only instances have fields."@),
        ),
{
}

/// An assignment to a field of a variable that holds no instance is the
/// error at the name, and nothing has changed: the value was not evaluated.
pub proof fn law_field_assignment_to_no_instance_changes_nothing(
    variable: crate::token::Token,
    name: TokenModel,
    op: Option<TokenType>,
    value: Expr,
    s: State,
    fuel: nat,
)
    requires
        fuel > 0,
        env_lookup(s.env, variable@.lexeme) is Some,
        !(env_lookup(s.env, variable@.lexeme)->Some_0 matches Some(Value::Instance(_))),
    ensures
        eval_field_set(Expr::Var { name: variable }, name, op, value, s, fuel) == failed(
            s,
            fault_at(name, "Only instances have fields."@),
        ),
{
}

/// An index read of a variable that holds neither a collection nor a string
/// is the error at the bracket, and the index was not evaluated.
pub proof fn law_index_read_looks_at_the_object_first(
    variable: crate::token::Token,
    keyword: crate::token::Token,
    index: Expr,
    s: State,
    fuel: nat,
)
    requires
        fuel > 1,
        env_lookup(s.env, variable@.lexeme) is Some,
        items_of(env_lookup(s.env, variable@.lexeme)->Some_0) is None,
    ensures
        resolve(
            Expr::IndexGet { object: Box::new(Expr::Var { name: variable }), keyword, index: Box::new(index) },
            s,
            fuel,
        ) == (crate::semantics::Resolved {
            state: s,
            result: Err(fault_at(keyword@, "Only list types can be indexed."@)),
        }),
{
    reveal_with_fuel(resolve, 2);
}

/// A call of `clock()` gives the next reading of the clock and moves on to
/// the one after it: two calls, however close, take two readings.
pub proof fn law_clock_takes_the_next_reading(args: Seq<Option<Value>>, paren: TokenModel, s: State)
    ensures
        crate::semantics::call_builtin(crate::value::Builtin::Clock, args, paren, s).result == Ok::<
            Option<Value>,
            Fault,
        >(Some(Value::Number(crate::semantics::next_reading(s)))),
        crate::semantics::call_builtin(crate::value::Builtin::Clock, args, paren, s).state.reads == s.reads + 1,
        crate::semantics::call_builtin(crate::value::Builtin::Clock, args, paren, s).state.env == s.env,
        s.reads < s.readings.len() ==> crate::semantics::next_reading(s) == s.readings[s.reads as int],
{
}

/// `%` on two numbers is the remainder that has the sign of the dividend,
/// and where that one is below zero, the rounded sum of it and the
/// divisor's absolute value. What the remainder and the sum are is the
/// rounded arithmetic's to say.
pub proof fn law_remainder_is_raised(x: Number, y: Number)
    ensures
        crate::operators::binary_value(TokenType::Mod, Some(Value::Number(x)), Some(Value::Number(y))) == Ok::<
            Option<Value>,
            Seq<char>,
        >(Some(Value::Number(x.modulo(y)))),
        ({
            let r = Number { bits: crate::number::float_remainder(x.bits, y.bits) };
            x.modulo(y) == if r.below(Number { bits: 0 }) {
                r.plus(y.absolute())
            } else {
                r
            }
        }),
{
}

} // verus!
