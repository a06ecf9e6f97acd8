//! The shape of the environment: evaluation neither adds nor removes a
//! scope, and no scope loses a name.

use crate::ast::Expr;
use crate::ast::FunctionDecl;
use crate::ast::LoopType;
use crate::ast::Stmt;
use crate::environment::env_assign;
use crate::environment::env_define;
use crate::environment::env_lookup;
use crate::environment::env_pop;
use crate::environment::find_scope;
use crate::environment::scope_has;
use crate::laws::law_define_is_local;
use crate::number::Number;
use crate::place::read_place;
use crate::place::write_place;
use crate::place::PlaceModel;
use crate::semantics::call_value;
use crate::semantics::class_defined;
use crate::semantics::eval;
use crate::semantics::eval_assign;
use crate::semantics::eval_binary;
use crate::semantics::eval_call;
use crate::semantics::eval_field_set;
use crate::semantics::eval_index;
use crate::semantics::eval_index_set;
use crate::semantics::eval_list;
use crate::semantics::eval_logical;
use crate::semantics::eval_place;
use crate::semantics::eval_ternary;
use crate::semantics::eval_unary;
use crate::semantics::exec;
use crate::semantics::exec_block;
use crate::semantics::exec_class;
use crate::semantics::exec_while;
use crate::semantics::flatten;
use crate::semantics::loop_body;
use crate::semantics::post_steps;
use crate::semantics::reprojected;
use crate::semantics::resolve;
use crate::semantics::run_body;
use crate::semantics::slot_assigned;
use crate::semantics::with_env;
use crate::semantics::State;
use crate::semantics::WriteBack;
use crate::token::Fault;
use crate::token::TokenModel;
use crate::token::TokenType;
use crate::value::BindingValue;
use crate::value::Value;
use std::rc::Rc;
use vstd::prelude::*;

verus! {

/// Whether `after` has as many scopes as `before`, each with at least the
/// names it had.
pub open spec fn keeps(before: Seq<Seq<BindingValue>>, after: Seq<Seq<BindingValue>>) -> bool {
    &&& after.len() == before.len()
    &&& forall|j: int, x: Seq<char>|
        0 <= j < before.len() && #[trigger] scope_has(before[j], x) ==> scope_has(after[j], x)
}

/// A definition in an environment that has a scope keeps its shape.
pub proof fn lemma_define_keeps(env: Seq<Seq<BindingValue>>, a: Seq<char>, v: Option<Value>)
    requires
        env.len() >= 1,
    ensures
        keeps(env, env_define(env, a, v)),
{
    let after = env_define(env, a, v);
    assert forall|j: int, x: Seq<char>| 0 <= j < env.len() && #[trigger] scope_has(env[j], x) implies scope_has(
        after[j],
        x,
    ) by {
        if j == env.len() - 1 {
            law_define_is_local(env[j], a, v, x);
        }
    }
}

/// An assignment keeps the shape of the environment.
pub proof fn lemma_assign_keeps(env: Seq<Seq<BindingValue>>, a: Seq<char>, v: Option<Value>)
    requires
        env_assign(env, a, v) is Some,
    ensures
        keeps(env, env_assign(env, a, v)->Some_0),
{
    let at = find_scope(env, a, env.len() - 1);
    let after = env_assign(env, a, v)->Some_0;
    lemma_scope_in_range(env, a, env.len() - 1);
    assert forall|j: int, x: Seq<char>| 0 <= j < env.len() && #[trigger] scope_has(env[j], x) implies scope_has(
        after[j],
        x,
    ) by {
        if j == at {
            law_define_is_local(env[j], a, v, x);
        }
    }
}

/// What a search for a scope gives is -1 or an index not above its start.
proof fn lemma_scope_in_range(env: Seq<Seq<BindingValue>>, x: Seq<char>, from: int)
    requires
        -1 <= from < env.len(),
    ensures
        -1 <= find_scope(env, x, from) <= from,
    decreases from + 1,
{
    if from >= 0 && !scope_has(env[from], x) {
        lemma_scope_in_range(env, x, from - 1);
    }
}

/// A name that a scope has is found.
pub proof fn lemma_bound_name_is_found(env: Seq<Seq<BindingValue>>, x: Seq<char>, j: int, from: int)
    requires
        0 <= j <= from < env.len(),
        scope_has(env[j], x),
    ensures
        find_scope(env, x, from) >= j,
    decreases from + 1,
{
    if !scope_has(env[from], x) {
        lemma_bound_name_is_found(env, x, j, from - 1);
    }
}

/// A write to a place keeps the shape of the environment.
pub proof fn lemma_write_keeps(p: PlaceModel, env: Seq<Seq<BindingValue>>, v: Option<Value>)
    requires
        write_place(p, env, v) is Ok,
    ensures
        keeps(env, write_place(p, env, v)->Ok_0),
    decreases p,
{
    match p {
        PlaceModel::Var(t) => lemma_assign_keeps(env, t.lexeme, v),
        PlaceModel::This(t) => lemma_assign_keeps(env, "this"@, v),
        PlaceModel::Field(base, name) => match read_place(*base, env) {
            Ok(Some(Value::Instance(i))) => lemma_write_keeps(
                *base,
                env,
                Some(Value::Instance(crate::class::instance_set(i, name.lexeme, v))),
            ),
            _ => {},
        },
        PlaceModel::Index(base, keyword, n) => match read_place(*base, env) {
            Ok(whole) => match crate::place::items_of(whole) {
                Some(items) => if items.len() > 0 {
                    lemma_write_keeps(
                        *base,
                        env,
                        crate::place::rebuilt(
                            whole,
                            items.update(
                                crate::operators::wrap_index(n.truncation() as int, items.len() as int),
                                v,
                            ),
                        ),
                    );
                },
                None => {},
            },
            _ => {},
        },
        PlaceModel::Temp(_) => {},
    }
}

/// Binding parameters in an environment that has a scope keeps its shape.
pub proof fn lemma_params_keep(
    env: Seq<Seq<BindingValue>>,
    params: Seq<crate::token::Token>,
    args: Seq<Option<Value>>,
    n: int,
)
    requires
        env.len() >= 1,
    ensures
        keeps(env, crate::semantics::params_defined(env, params, args, n)),
    decreases n,
{
    if !(n <= 0 || n > params.len() || n > args.len()) {
        lemma_params_keep(env, params, args, n - 1);
        lemma_define_keeps(
            crate::semantics::params_defined(env, params, args, n - 1),
            params[n - 1]@.lexeme,
            args[n - 1],
        );
    }
}

/// Closing the scope that was opened gives back the shape.
proof fn lemma_pop_keeps(env: Seq<Seq<BindingValue>>, inner: Seq<Seq<BindingValue>>)
    requires
        keeps(env.push(Seq::empty()), inner),
    ensures
        keeps(env, env_pop(inner)),
{
    let opened = env.push(Seq::empty());
    assert forall|j: int, x: Seq<char>| 0 <= j < env.len() && #[trigger] scope_has(env[j], x) implies scope_has(
        env_pop(inner)[j],
        x,
    ) by {
        assert(opened[j] == env[j]);
        assert(scope_has(opened[j], x));
    }
}

/// A call leaves the caller's environment as it was.
pub proof fn lemma_call_restores(
    callee: Option<Value>,
    args: Seq<Option<Value>>,
    in_new_scope: bool,
    paren: TokenModel,
    otherwise: Fault,
    s: State,
    fuel: nat,
)
    ensures
        call_value(callee, args, in_new_scope, paren, otherwise, s, fuel).state.env == s.env,
{
    reveal_with_fuel(call_value, 3);
}

/// Writing `this` back keeps the shape of the environment.
proof fn lemma_reprojected_keeps(
    target: WriteBack,
    p: PlaceModel,
    this_after: Option<Option<Value>>,
    env: Seq<Seq<BindingValue>>,
)
    requires
        reprojected(target, p, this_after, env) is Ok,
    ensures
        keeps(env, reprojected(target, p, this_after, env)->Ok_0),
{
    match (target, p, this_after) {
        (WriteBack::Receiver, PlaceModel::Field(base, _), Some(Some(v))) => {
            lemma_write_keeps(*base, env, Some(v));
        },
        (WriteBack::Super, _, Some(Some(Value::Instance(after)))) => match env_lookup(env, "this"@) {
            Some(Some(Value::Instance(mine))) => {
                let v = Some(
                    Value::Instance(crate::value::InstanceValue { class: mine.class, fields: after.fields }),
                );
                if env_assign(env, "this"@, v) is Some {
                    lemma_assign_keeps(env, "this"@, v);
                }
            },
            _ => {},
        },
        _ => {},
    }
}

/// The declaration of a class keeps the shape of the environment.
proof fn lemma_class_defined_keeps(
    name: TokenModel,
    super_class: Option<Box<crate::value::ClassValue>>,
    methods: Seq<Rc<FunctionDecl>>,
    env: Seq<Seq<BindingValue>>,
)
    requires
        env.len() >= 1,
    ensures
        keeps(env, class_defined(name, super_class, methods, env)),
{
    let declared = env_define(env, name.lexeme, None);
    lemma_define_keeps(env, name.lexeme, None);
    let class = crate::value::ClassValue {
        name: name.lexeme,
        methods: crate::semantics::class_methods(methods, name.lexeme, declared),
        super_class,
    };
    if env_assign(declared, name.lexeme, Some(Value::Class(class))) is Some {
        lemma_assign_keeps(declared, name.lexeme, Some(Value::Class(class)));
    }
}

/// The evaluation of an expression keeps the shape of the environment.
pub proof fn lemma_eval_keeps(e: Expr, s: State, fuel: nat)
    requires
        s.env.len() >= 1,
    ensures
        keeps(s.env, eval(e, s, fuel).state.env),
    decreases fuel, 0nat,
{
    if fuel > 0 {
        let f = (fuel - 1) as nat;
        match e {
            Expr::Binary { left, operator, right } => lemma_binary_keeps(*left, operator@, *right, s, f),
            Expr::Ternary { condition, operator_a, left, right } => lemma_ternary_keeps(
                *condition,
                operator_a@,
                *left,
                *right,
                s,
                f,
            ),
            Expr::Grouping { expression } => lemma_eval_keeps(*expression, s, f),
            Expr::Unary { operator, right } => lemma_unary_keeps(operator@, *right, s, f),
            Expr::Literal { value } => {},
            Expr::Super { keyword, method } => {},
            Expr::Assign { name, assign_type, value } => lemma_assign_expr_keeps(name@, assign_type, *value, s, f),
            Expr::Logical { left, operator, right } => lemma_logical_keeps(*left, operator@, *right, s, f),
            Expr::Call { callee, paren, arguments } => lemma_call_keeps(*callee, paren@, arguments@, s, f),
            Expr::FieldSet { object, name, assign_type, value } => lemma_field_set_keeps(
                *object,
                name@,
                assign_type,
                *value,
                s,
                f,
            ),
            Expr::Index { collection } => lemma_index_keeps(collection@, s, f),
            Expr::IndexSet { object, name, index, assign_type, value } => lemma_index_set_keeps(
                *object,
                name@,
                *index,
                assign_type,
                *value,
                s,
                f,
            ),
            _ => lemma_place_keeps(e, s, f),
        }
    }
}

proof fn lemma_resolve_keeps(e: Expr, s: State, fuel: nat)
    requires
        s.env.len() >= 1,
    ensures
        keeps(s.env, resolve(e, s, fuel).state.env),
    decreases fuel, 0nat,
{
    if fuel > 0 {
        let f = (fuel - 1) as nat;
        match e {
            Expr::Var { name } => {},
            Expr::This { keyword } => {},
            Expr::Get { object, name } => lemma_resolve_keeps(*object, s, f),
            Expr::IndexGet { object, keyword, index } => {
                lemma_resolve_keeps(*object, s, f);
                let base = resolve(*object, s, f);
                if base.result is Ok {
                    lemma_eval_keeps(*index, base.state, f);
                }
            },
            _ => lemma_eval_keeps(e, s, f),
        }
    }
}

proof fn lemma_place_keeps(e: Expr, s: State, fuel: nat)
    requires
        s.env.len() >= 1,
    ensures
        keeps(s.env, eval_place(e, s, fuel).state.env),
    decreases fuel, 1nat,
{
    lemma_resolve_keeps(e, s, fuel);
}

proof fn lemma_binary_keeps(left: Expr, op: TokenModel, right: Expr, s: State, fuel: nat)
    requires
        s.env.len() >= 1,
    ensures
        keeps(s.env, eval_binary(left, op, right, s, fuel).state.env),
    decreases fuel, 1nat,
{
    lemma_eval_keeps(right, s, fuel);
    let r = eval(right, s, fuel);
    if r.result is Ok {
        lemma_eval_keeps(left, r.state, fuel);
    }
}

proof fn lemma_ternary_keeps(condition: Expr, op: TokenModel, left: Expr, right: Expr, s: State, fuel: nat)
    requires
        s.env.len() >= 1,
    ensures
        keeps(s.env, eval_ternary(condition, op, left, right, s, fuel).state.env),
    decreases fuel, 1nat,
{
    lemma_eval_keeps(condition, s, fuel);
    let c = eval(condition, s, fuel);
    if c.result is Ok {
        lemma_eval_keeps(right, c.state, fuel);
        let r = eval(right, c.state, fuel);
        if r.result is Ok {
            lemma_eval_keeps(left, r.state, fuel);
        }
    }
}

proof fn lemma_unary_keeps(op: TokenModel, right: Expr, s: State, fuel: nat)
    requires
        s.env.len() >= 1,
    ensures
        keeps(s.env, eval_unary(op, right, s, fuel).state.env),
    decreases fuel, 1nat,
{
    if op.kind == TokenType::Incr || op.kind == TokenType::Decr {
        lemma_resolve_keeps(right, s, fuel);
        let r = resolve(right, s, fuel);
        match r.result {
            Ok(p) => match read_place(p, r.state.env) {
                Ok(Some(Value::Number(x))) => {
                    let y = if op.kind == TokenType::Incr {
                        x.plus(Number::one())
                    } else {
                        x.minus(Number::one())
                    };
                    if write_place(p, r.state.env, Some(Value::Number(y))) is Ok {
                        lemma_write_keeps(p, r.state.env, Some(Value::Number(y)));
                    }
                },
                _ => {},
            },
            _ => {},
        }
    } else {
        lemma_eval_keeps(right, s, fuel);
    }
}

proof fn lemma_assign_expr_keeps(name: TokenModel, op: Option<TokenType>, value: Expr, s: State, fuel: nat)
    requires
        s.env.len() >= 1,
    ensures
        keeps(s.env, eval_assign(name, op, value, s, fuel).state.env),
    decreases fuel, 1nat,
{
    lemma_eval_keeps(value, s, fuel);
    let v = eval(value, s, fuel);
    match v.result {
        Ok(rhs) => match read_place(PlaceModel::Var(name), v.state.env) {
            Ok(current) => match crate::semantics::at_token(
                crate::operators::assign_value(op, current, rhs),
                name,
            ) {
                Ok(stored) => if write_place(PlaceModel::Var(name), v.state.env, stored) is Ok {
                    lemma_write_keeps(PlaceModel::Var(name), v.state.env, stored);
                },
                _ => {},
            },
            _ => {},
        },
        _ => {},
    }
}

proof fn lemma_logical_keeps(left: Expr, op: TokenModel, right: Expr, s: State, fuel: nat)
    requires
        s.env.len() >= 1,
    ensures
        keeps(s.env, eval_logical(left, op, right, s, fuel).state.env),
    decreases fuel, 1nat,
{
    lemma_eval_keeps(left, s, fuel);
    let l = eval(left, s, fuel);
    if l.result is Ok {
        lemma_eval_keeps(right, l.state, fuel);
    }
}

proof fn lemma_list_keeps(exprs: Seq<Expr>, i: int, acc: Seq<Option<Value>>, s: State, fuel: nat)
    requires
        s.env.len() >= 1,
    ensures
        keeps(s.env, eval_list(exprs, i, acc, s, fuel).state.env),
    decreases fuel, 1 + exprs.len() - i,
{
    if 0 <= i < exprs.len() {
        lemma_eval_keeps(exprs[i], s, fuel);
        let v = eval(exprs[i], s, fuel);
        match v.result {
            Ok(x) => lemma_list_keeps(exprs, i + 1, acc.push(x), v.state, fuel),
            _ => {},
        }
    }
}

proof fn lemma_index_keeps(collection: Seq<Expr>, s: State, fuel: nat)
    requires
        s.env.len() >= 1,
    ensures
        keeps(s.env, eval_index(collection, s, fuel).state.env),
    decreases fuel, 2 + collection.len(),
{
    lemma_list_keeps(collection, 0, Seq::empty(), s, fuel);
}

proof fn lemma_field_set_keeps(
    object: Expr,
    name: TokenModel,
    op: Option<TokenType>,
    value: Expr,
    s: State,
    fuel: nat,
)
    requires
        s.env.len() >= 1,
    ensures
        keeps(s.env, eval_field_set(object, name, op, value, s, fuel).state.env),
    decreases fuel, 1nat,
{
    lemma_resolve_keeps(object, s, fuel);
    let o = resolve(object, s, fuel);
    match o.result {
        Ok(p) => {
            lemma_eval_keeps(value, o.state, fuel);
            let v = eval(value, o.state, fuel);
            match v.result {
                Ok(rhs) => match read_place(p, v.state.env) {
                    Ok(Some(Value::Instance(i))) => {
                        let stored = match crate::class::instance_get(i, name) {
                            Ok(current) => crate::semantics::at_token(
                                crate::operators::assign_value(op, current, rhs),
                                name,
                            ),
                            Err(_) => Ok(rhs),
                        };
                        match stored {
                            Ok(x) => {
                                let w = Some(Value::Instance(crate::class::instance_set(i, name.lexeme, x)));
                                if write_place(p, v.state.env, w) is Ok {
                                    lemma_write_keeps(p, v.state.env, w);
                                }
                            },
                            _ => {},
                        }
                    },
                    _ => {},
                },
                _ => {},
            }
        },
        _ => {},
    }
}

/// An assignment to a slot keeps the shape of the environment.
proof fn lemma_slot_assigned_keeps(
    p: PlaceModel,
    name: TokenModel,
    n: Number,
    op: Option<TokenType>,
    rhs: Option<Value>,
    env: Seq<Seq<BindingValue>>,
)
    requires
        slot_assigned(p, name, n, op, rhs, env) is Ok,
    ensures
        keeps(env, slot_assigned(p, name, n, op, rhs, env)->Ok_0.0),
{
    let whole = read_place(p, env)->Ok_0;
    let items = crate::place::items_of(whole)->Some_0;
    let k = crate::operators::wrap_index(n.truncation() as int, items.len() as int);
    let x = slot_assigned(p, name, n, op, rhs, env)->Ok_0.1;
    lemma_write_keeps(p, env, crate::place::rebuilt(whole, items.update(k, x)));
}

proof fn lemma_index_set_keeps(
    object: Expr,
    name: TokenModel,
    index: Expr,
    op: Option<TokenType>,
    value: Expr,
    s: State,
    fuel: nat,
)
    requires
        s.env.len() >= 1,
    ensures
        keeps(s.env, eval_index_set(object, name, index, op, value, s, fuel).state.env),
    decreases fuel, 1nat,
{
    lemma_resolve_keeps(object, s, fuel);
    let o = resolve(object, s, fuel);
    match o.result {
        Ok(p) => {
            lemma_eval_keeps(index, o.state, fuel);
            let i = eval(index, o.state, fuel);
            match i.result {
                Ok(Some(Value::Number(n))) => {
                    lemma_eval_keeps(value, i.state, fuel);
                    let v = eval(value, i.state, fuel);
                    match v.result {
                        Ok(rhs) => if slot_assigned(p, name, n, op, rhs, v.state.env) is Ok {
                            lemma_slot_assigned_keeps(p, name, n, op, rhs, v.state.env);
                        },
                        _ => {},
                    }
                },
                _ => {},
            }
        },
        _ => {},
    }
}

proof fn lemma_call_keeps(callee: Expr, paren: TokenModel, arguments: Seq<Expr>, s: State, fuel: nat)
    requires
        s.env.len() >= 1,
    ensures
        keeps(s.env, eval_call(callee, paren, arguments, s, fuel).state.env),
    decreases fuel, 3 + arguments.len(),
{
    lemma_resolve_keeps(callee, s, fuel);
    let target = resolve(callee, s, fuel);
    match target.result {
        Ok(p) => match read_place(p, target.state.env) {
            Ok(function) => {
                lemma_list_keeps(arguments, 0, Seq::empty(), target.state, fuel);
                let args = eval_list(arguments, 0, Seq::empty(), target.state, fuel);
                match args.result {
                    Ok(values) => {
                        let otherwise = crate::semantics::not_callable(callee, paren);
                        let fresh = crate::semantics::fresh_scope(callee);
                        lemma_call_restores(function, values, fresh, paren, otherwise, args.state, fuel);
                        let c = call_value(function, values, fresh, paren, otherwise, args.state, fuel);
                        let target_back = crate::semantics::write_back_of(callee, p, target.state.env);
                        if c.result is Ok && reprojected(target_back, p, c.this_after, c.state.env) is Ok {
                            lemma_reprojected_keeps(target_back, p, c.this_after, c.state.env);
                        }
                    },
                    _ => {},
                }
            },
            _ => {},
        },
        _ => {},
    }
}

/// The execution of a statement keeps the shape of the environment: a
/// block leaves as many scopes as it found, whether it ended in an error or
/// not.
pub proof fn lemma_exec_keeps(stmt: Stmt, s: State, fuel: nat)
    requires
        s.env.len() >= 1,
    ensures
        keeps(s.env, exec(stmt, s, fuel).state.env),
    decreases fuel, 0nat,
{
    if fuel > 0 {
        let f = (fuel - 1) as nat;
        match stmt {
            Stmt::Expression { expression } => lemma_eval_keeps(expression, s, f),
            Stmt::Var { name, initializer } => match initializer {
                Some(init) => {
                    lemma_eval_keeps(init, s, f);
                    let r = eval(init, s, f);
                    match r.result {
                        Ok(v) => lemma_define_keeps(r.state.env, name@.lexeme, v),
                        _ => {},
                    }
                },
                None => lemma_define_keeps(s.env, name@.lexeme, None),
            },
            Stmt::Print { expression } => lemma_eval_keeps(expression, s, f),
            Stmt::Block { statements } => {
                let opened = with_env(s, s.env.push(Seq::empty()));
                lemma_block_keeps(statements@, 0, None, opened, f);
                lemma_pop_keeps(s.env, exec_block(statements@, 0, None, opened, f).state.env);
            },
            Stmt::Class { name, super_class, methods } => lemma_class_keeps(name@, super_class, methods@, s, f),
            Stmt::If { condition, then_branch, else_branch } => {
                lemma_eval_keeps(condition, s, f);
                let c = eval(condition, s, f);
                match c.result {
                    Ok(v) => if crate::operators::truthy(v) {
                        lemma_exec_keeps(*then_branch, c.state, f);
                    } else {
                        match else_branch {
                            Some(b) => lemma_exec_keeps(*b, c.state, f),
                            None => {},
                        }
                    },
                    _ => {},
                }
            },
            Stmt::While { condition, body, loop_type } => lemma_while_keeps(condition, *body, loop_type, s, f),
            Stmt::Function { declaration } => {
                lemma_define_keeps(
                    s.env,
                    declaration.name@.lexeme,
                    Some(crate::semantics::declared(declaration, s.env)),
                );
            },
            Stmt::Return { keyword, value } => match value {
                Some(e) => lemma_eval_keeps(e, s, f),
                None => {},
            },
            Stmt::Break { keyword } => {},
            Stmt::Continue { keyword } => {},
        }
    }
}

/// The statements of a block keep the shape of the environment.
pub proof fn lemma_block_keeps(stmts: Seq<Stmt>, i: int, pending: Option<Value>, s: State, fuel: nat)
    requires
        s.env.len() >= 1,
    ensures
        keeps(s.env, exec_block(stmts, i, pending, s, fuel).state.env),
    decreases fuel, 1 + stmts.len() - i,
{
    if 0 <= i < stmts.len() {
        lemma_exec_keeps(stmts[i], s, fuel);
        let r = exec(stmts[i], s, fuel);
        match r.result {
            Err(_) => {},
            Ok(Some(Value::Return(_))) => {},
            Ok(Some(Value::Keyword(k))) => lemma_block_keeps(
                stmts,
                i + 1,
                Some(Value::Keyword(k)),
                r.state,
                fuel,
            ),
            Ok(_) => lemma_block_keeps(stmts, i + 1, pending, r.state, fuel),
        }
    }
}

proof fn lemma_class_keeps(
    name: TokenModel,
    super_class: Option<Expr>,
    methods: Seq<Rc<FunctionDecl>>,
    s: State,
    fuel: nat,
)
    requires
        s.env.len() >= 1,
    ensures
        keeps(s.env, exec_class(name, super_class, methods, s, fuel).state.env),
    decreases fuel, 1nat,
{
    match super_class {
        Some(e) => {
            lemma_eval_keeps(e, s, fuel);
            let r = eval(e, s, fuel);
            match r.result {
                Ok(Some(Value::Class(c))) => {
                    let keyed = env_define(
                        r.state.env,
                        crate::class::super_key(name.lexeme),
                        Some(Value::Class(c)),
                    );
                    lemma_define_keeps(r.state.env, crate::class::super_key(name.lexeme), Some(Value::Class(c)));
                    lemma_class_defined_keeps(name, Some(Box::new(c)), methods, keyed);
                },
                _ => {},
            }
        },
        None => lemma_class_defined_keeps(name, None, methods, s.env),
    }
}

proof fn lemma_body_keeps(stmts: Seq<Stmt>, i: int, s: State, fuel: nat)
    requires
        s.env.len() >= 1,
    ensures
        keeps(s.env, run_body(stmts, i, s, fuel).state.env),
    decreases fuel, 1 + stmts.len() - i,
{
    if 0 <= i < stmts.len() {
        lemma_exec_keeps(stmts[i], s, fuel);
        let r = exec(stmts[i], s, fuel);
        match r.result {
            Err(_) => {},
            Ok(Some(Value::Return(_))) => {},
            Ok(Some(Value::Keyword(_))) => {},
            Ok(_) => lemma_body_keeps(stmts, i + 1, r.state, fuel),
        }
    }
}

proof fn lemma_post_steps_keep(stmts: Seq<Stmt>, loop_type: LoopType, s: State, fuel: nat)
    requires
        s.env.len() >= 1,
    ensures
        keeps(s.env, post_steps(stmts, loop_type, s, fuel).state.env),
    decreases fuel, 1nat,
{
    match loop_type {
        LoopType::While => {},
        LoopType::For => if stmts.len() >= 1 {
            lemma_exec_keeps(stmts[stmts.len() - 1], s, fuel);
        },
        LoopType::ForEach => if stmts.len() >= 2 {
            lemma_exec_keeps(stmts[stmts.len() - 2], s, fuel);
            let a = exec(stmts[stmts.len() - 2], s, fuel);
            if a.result is Ok {
                lemma_exec_keeps(stmts[stmts.len() - 1], a.state, fuel);
            }
        },
    }
}

proof fn lemma_pass_keeps(body: Stmt, s: State, fuel: nat)
    requires
        s.env.len() >= 1,
    ensures
        keeps(s.env, loop_body(body, s, fuel).state.env),
    decreases fuel, 2 + flatten(body).len(),
{
    match body {
        Stmt::Block { .. } => lemma_body_keeps(flatten(body), 0, s, fuel),
        _ => lemma_exec_keeps(body, s, fuel),
    }
}

proof fn lemma_while_keeps(condition: Expr, body: Stmt, loop_type: LoopType, s: State, fuel: nat)
    requires
        s.env.len() >= 1,
    ensures
        keeps(s.env, exec_while(condition, body, loop_type, s, fuel).state.env),
    decreases fuel, 3 + flatten(body).len(),
{
    lemma_eval_keeps(condition, s, fuel);
    let c = eval(condition, s, fuel);
    match c.result {
        Ok(v) => if crate::operators::truthy(v) {
            lemma_pass_keeps(body, c.state, fuel);
            let b = loop_body(body, c.state, fuel);
            match b.result {
                Err(_) => {},
                Ok(Some(Value::Return(_))) => {},
                Ok(Some(Value::Keyword(crate::value::Signal::Break))) => {},
                Ok(Some(Value::Keyword(crate::value::Signal::Continue))) => {
                    let p = match body {
                        Stmt::Block { .. } => post_steps(flatten(body), loop_type, b.state, fuel),
                        _ => crate::semantics::done(b.state, None),
                    };
                    match body {
                        Stmt::Block { .. } => lemma_post_steps_keep(flatten(body), loop_type, b.state, fuel),
                        _ => {},
                    }
                    if p.result is Ok && fuel > 0 {
                        lemma_while_keeps(condition, body, loop_type, p.state, (fuel - 1) as nat);
                    }
                },
                Ok(_) => if fuel > 0 {
                    lemma_while_keeps(condition, body, loop_type, b.state, (fuel - 1) as nat);
                },
            }
        },
        _ => {},
    }
}

} // verus!
