//! What a program means: the evaluator as a function on models.
//!
//! A state holds the environment, the lines printed so far, and the clock:
//! the readings that it gives, call after call of `clock()`, and how many of
//! them have been taken. Every function takes a depth: a construct nested
//! deeper than that, or a loop that runs longer, ends in an error.

use crate::ast::Expr;
use crate::ast::FunctionDecl;
use crate::ast::LoopType;
use crate::ast::Stmt;
use crate::class::bound;
use crate::class::callable_arity;
use crate::class::class_arity;
use crate::class::find_method;
use crate::class::initializer;
use crate::class::instance_get;
use crate::class::instance_of;
use crate::class::instance_set;
use crate::class::super_key;
use crate::environment::env_assign;
use crate::environment::env_define;
use crate::environment::env_lookup;
use crate::environment::env_pop;
use crate::environment::scope_has;
use crate::number::Number;
use crate::operators::assign_value;
use crate::operators::binary_value;
use crate::operators::truthy;
use crate::operators::unary_value;
use crate::operators::wrap_index;
use crate::place::fault_at;
use crate::place::items_of;
use crate::place::read_place;
use crate::place::rebuilt;
use crate::place::write_place;
use crate::place::PlaceModel;
use crate::render::render;
use crate::text::arity_message;
use crate::token::Fault;
use crate::token::Token;
use crate::token::TokenModel;
use crate::token::TokenType;
use crate::value::view_slot;
use crate::value::BindingValue;
use crate::value::Builtin;
use crate::value::Callable;
use crate::value::CallableValue;
use crate::value::ClassValue;
use crate::value::FunctionType;
use crate::value::FunctionValue;
use crate::value::InstanceValue;
use crate::value::Literal;
use crate::value::Signal;
use crate::value::Value;
use std::rc::Rc;
use vstd::prelude::*;

verus! {

/// What the evaluator works on.
pub ghost struct State {
    pub env: Seq<Seq<BindingValue>>,
    pub output: Seq<Seq<char>>,
    /// What the clock reads, call after call of `clock()`.
    pub readings: Seq<Number>,
    /// How many of the readings have been taken.
    pub reads: nat,
}

/// The state after an evaluation, with its value or its error.
pub ghost struct Step {
    pub state: State,
    pub result: Result<Option<Value>, Fault>,
}

/// The state after the place of an expression was found, with the place.
pub ghost struct Resolved {
    pub state: State,
    pub result: Result<PlaceModel, Fault>,
}

/// The state after a list of expressions was evaluated, with their values.
pub ghost struct Values {
    pub state: State,
    pub result: Result<Seq<Option<Value>>, Fault>,
}

/// The state after a call, with what the call returns and what `this` was
/// bound to when the callee's body ended (`None` where it was not bound).
pub ghost struct Called {
    pub state: State,
    pub result: Result<Option<Value>, Fault>,
    pub this_after: Option<Option<Value>>,
}

/// An evaluation that gave `value`.
pub open spec fn done(state: State, value: Option<Value>) -> Step {
    Step { state, result: Ok(value) }
}

/// An evaluation that ended in `fault`.
pub open spec fn failed(state: State, fault: Fault) -> Step {
    Step { state, result: Err(fault) }
}

/// The state with another environment.
pub open spec fn with_env(s: State, env: Seq<Seq<BindingValue>>) -> State {
    State { env, output: s.output, readings: s.readings, reads: s.reads }
}

/// The state with other lines printed.
pub open spec fn with_output(s: State, output: Seq<Seq<char>>) -> State {
    State { env: s.env, output, readings: s.readings, reads: s.reads }
}

/// What the clock reads at the next call of `clock()`: the next of the
/// readings, and zero once they are used up.
pub open spec fn next_reading(s: State) -> Number {
    if s.reads < s.readings.len() {
        s.readings[s.reads as int]
    } else {
        Number { bits: 0 }
    }
}

/// The error of an evaluation that ran out of depth.
pub open spec fn exhausted() -> Fault {
    Fault {
        token: TokenModel { kind: TokenType::Eof, lexeme: ""@, line: 0 },
        message: "Evaluation depth exhausted."@,
    }
}

/// An operator's result, its message placed at `token`.
pub open spec fn at_token(r: Result<Option<Value>, Seq<char>>, token: TokenModel) -> Result<
    Option<Value>,
    Fault,
> {
    match r {
        Ok(v) => Ok(v),
        Err(m) => Err(fault_at(token, m)),
    }
}

/// What a literal expression gives: its value, and for an anonymous
/// function that function over a fresh scope of the current environment.
pub open spec fn literal_value(value: Option<Literal>, env: Seq<Seq<BindingValue>>) -> Option<Value> {
    match value {
        Some(Literal::Function(Callable::User(f))) => if f.f_type == FunctionType::Anon {
            Some(
                Value::Function(
                    CallableValue::User(
                        FunctionValue {
                            declaration: *f.declaration,
                            closure: env.push(Seq::empty()),
                            f_type: FunctionType::Anon,
                            is_initializer: false,
                        },
                    ),
                ),
            )
        } else {
            view_slot(value)
        },
        _ => view_slot(value),
    }
}

/// The statements of a loop's body: those of a block, with the blocks among
/// them opened in turn; any other statement alone.
pub open spec fn flatten(stmt: Stmt) -> Seq<Stmt>
    decreases stmt, 0int,
{
    match stmt {
        Stmt::Block { statements } => flatten_all(statements@, statements@.len() as int),
        _ => seq![stmt],
    }
}

/// The first `n` statements flattened, one after the other.
pub open spec fn flatten_all(stmts: Seq<Stmt>, n: int) -> Seq<Stmt>
    decreases stmts, n,
{
    if n <= 0 || n > stmts.len() {
        Seq::empty()
    } else {
        flatten_all(stmts, n - 1) + flatten(stmts[n - 1])
    }
}

/// The environment with the first `n` parameters bound to the arguments,
/// one after the other, in its innermost scope.
pub open spec fn params_defined(
    env: Seq<Seq<BindingValue>>,
    params: Seq<Token>,
    args: Seq<Option<Value>>,
    n: int,
) -> Seq<Seq<BindingValue>>
    decreases n,
{
    if n <= 0 || n > params.len() || n > args.len() {
        env
    } else {
        env_define(params_defined(env, params, args, n - 1), params[n - 1]@.lexeme, args[n - 1])
    }
}

/// How many parameters have an argument.
pub open spec fn bound_count(params: Seq<Token>, args: Seq<Option<Value>>) -> int {
    if params.len() <= args.len() {
        params.len() as int
    } else {
        args.len() as int
    }
}

/// The environment in which the body of a called function runs: the
/// function's own, with a fresh scope where `in_new_scope` asks for one, and
/// each parameter that has an argument bound to it in the innermost scope.
pub open spec fn call_env(f: FunctionValue, args: Seq<Option<Value>>, in_new_scope: bool) -> Seq<
    Seq<BindingValue>,
> {
    params_defined(
        if in_new_scope {
            f.closure.push(Seq::empty())
        } else {
            f.closure
        },
        f.declaration.params@,
        args,
        bound_count(f.declaration.params@, args),
    )
}

/// Whether the call of `callee` binds the parameters in a fresh scope: a
/// call through a property or through `super` binds them in the scope that
/// holds `this`.
pub open spec fn fresh_scope(callee: Expr) -> bool {
    !(callee is Get || callee is Super)
}

/// What a call of a user function gives, from what its body gave and what
/// `this` was bound to at the end: for an initializer that `this`, else the
/// value of the `return` that ended the body, or nil.
pub open spec fn call_result(
    is_initializer: bool,
    body: Result<Option<Value>, Fault>,
    this_after: Option<Option<Value>>,
) -> Result<Option<Value>, Fault> {
    match body {
        Err(e) => Err(e),
        Ok(v) => if is_initializer {
            match this_after {
                Some(t) => Ok(t),
                None => Ok(None),
            }
        } else {
            Ok(returned(v))
        },
    }
}

/// The methods of a class as declared, each over the environment `env`.
pub open spec fn class_methods(
    decls: Seq<Rc<FunctionDecl>>,
    class_name: Seq<char>,
    env: Seq<Seq<BindingValue>>,
) -> Seq<FunctionValue> {
    Seq::new(
        decls.len(),
        |i: int|
            FunctionValue {
                declaration: *decls[i],
                closure: env,
                f_type: FunctionType::Method,
                is_initializer: decls[i].name@.lexeme == class_name,
            },
    )
}

/// The function that a declaration makes in the environment `env`.
pub open spec fn declared(declaration: Rc<FunctionDecl>, env: Seq<Seq<BindingValue>>) -> Value {
    Value::Function(
        CallableValue::User(
            FunctionValue {
                declaration: *declaration,
                closure: env,
                f_type: FunctionType::Normal,
                is_initializer: false,
            },
        ),
    )
}

/// What a function's body hands to its caller: the value of the `return`
/// that ended it, nil where it ran to its end.
pub open spec fn returned(v: Option<Value>) -> Option<Value> {
    match v {
        Some(Value::Return(b)) => *b,
        _ => None,
    }
}

/// A host function applied to its arguments: `clock` takes the next reading
/// of the clock, `len` the number of items of a collection or of bytes of a
/// string in UTF-8, `debug` puts the text of a value out and gives nil.
pub open spec fn call_builtin(b: Builtin, args: Seq<Option<Value>>, paren: TokenModel, s: State) -> Called {
    match b {
        Builtin::Clock => Called {
            state: State { env: s.env, output: s.output, readings: s.readings, reads: s.reads + 1 },
            result: Ok(Some(Value::Number(next_reading(s)))),
            this_after: None,
        },
        Builtin::Len => Called {
            state: s,
            result: match args[0] {
                Some(Value::Collection(c)) => Ok(Some(Value::Number(Number::of_count(c.len() as usize)))),
                Some(Value::String(t)) => Ok(
                    Some(Value::Number(Number::of_count(vstd::utf8::encode_utf8(t).len() as usize))),
                ),
                _ => Err(fault_at(paren, "Argument must be a List or a String."@)),
            },
            this_after: None,
        },
        Builtin::Debug => Called {
            state: with_output(s, s.output.push(render(args[0], false))),
            result: Ok(None),
            this_after: None,
        },
    }
}

/// The error of a call of something that cannot be called.
pub open spec fn not_callable(callee: Expr, paren: TokenModel) -> Fault {
    match callee {
        Expr::Var { name } => fault_at(name@, "Expected function."@),
        _ => fault_at(paren, "Expected variable expression."@),
    }
}

/// Where a call writes back what the callee did to `this`.
#[derive(Clone, Copy, Debug, PartialEq, Eq, Structural)]
pub enum WriteBack {
    /// Nowhere: the call was no method call.
    Nowhere,
    /// To the place of `obj` in `obj.m(..)`, where `m` is a method of `obj`.
    Receiver,
    /// To the fields of the caller's own `this`: the call went through `super`.
    Super,
}

/// Where the call of `callee`, whose place is `place`, writes `this` back.
/// A call of a function that a field holds is no method call.
pub open spec fn write_back_of(callee: Expr, place: PlaceModel, env: Seq<Seq<BindingValue>>) -> WriteBack {
    match place {
        PlaceModel::Field(base, name) => match read_place(*base, env) {
            Ok(Some(Value::Instance(i))) => if scope_has(i.fields, name.lexeme) {
                WriteBack::Nowhere
            } else {
                WriteBack::Receiver
            },
            _ => WriteBack::Nowhere,
        },
        _ => match callee {
            Expr::Super { .. } => WriteBack::Super,
            _ => WriteBack::Nowhere,
        },
    }
}

/// The environment after a call, once what the callee did to `this` has
/// been written back: for a method called on a place, to that place; for a
/// call through `super`, to the fields of the caller's own `this`.
pub open spec fn reprojected(
    target: WriteBack,
    place: PlaceModel,
    this_after: Option<Option<Value>>,
    env: Seq<Seq<BindingValue>>,
) -> Result<Seq<Seq<BindingValue>>, Fault> {
    match (target, place, this_after) {
        (WriteBack::Receiver, PlaceModel::Field(base, _), Some(Some(v))) => write_place(*base, env, Some(v)),
        (WriteBack::Super, _, Some(Some(Value::Instance(after)))) => match env_lookup(env, "this"@) {
            Some(Some(Value::Instance(mine))) => match env_assign(
                env,
                "this"@,
                Some(Value::Instance(InstanceValue { class: mine.class, fields: after.fields })),
            ) {
                Some(e) => Ok(e),
                None => Ok(env),
            },
            _ => Ok(env),
        },
        _ => Ok(env),
    }
}

/// The value of an expression.
pub open spec fn eval(e: Expr, s: State, fuel: nat) -> Step
    decreases fuel, 0nat,
{
    if fuel == 0 {
        failed(s, exhausted())
    } else {
        let f = (fuel - 1) as nat;
        match e {
            Expr::Binary { left, operator, right } => eval_binary(*left, operator@, *right, s, f),
            Expr::Ternary { condition, operator_a, left, right } => eval_ternary(
                *condition,
                operator_a@,
                *left,
                *right,
                s,
                f,
            ),
            Expr::Grouping { expression } => eval(*expression, s, f),
            Expr::Unary { operator, right } => eval_unary(operator@, *right, s, f),
            Expr::Literal { value } => done(s, literal_value(value, s.env)),
            Expr::Super { keyword, method } => eval_super(keyword@, method@, s),
            Expr::Assign { name, assign_type, value } => eval_assign(name@, assign_type, *value, s, f),
            Expr::Logical { left, operator, right } => eval_logical(*left, operator@, *right, s, f),
            Expr::Call { callee, paren, arguments } => eval_call(*callee, paren@, arguments@, s, f),
            Expr::FieldSet { object, name, assign_type, value } => eval_field_set(
                *object,
                name@,
                assign_type,
                *value,
                s,
                f,
            ),
            Expr::Index { collection } => eval_index(collection@, s, f),
            Expr::IndexSet { object, name, index, assign_type, value } => eval_index_set(
                *object,
                name@,
                *index,
                assign_type,
                *value,
                s,
                f,
            ),
            _ => eval_place(e, s, f),
        }
    }
}

/// Why what a place holds cannot be indexed: the error of reading it, or
/// that it is neither a collection nor a string. `None` where it can.
pub open spec fn refused_index(p: PlaceModel, token: TokenModel, env: Seq<Seq<BindingValue>>) -> Option<Fault> {
    match read_place(p, env) {
        Err(e) => Some(e),
        Ok(whole) => match items_of(whole) {
            Some(_) => None,
            None => Some(fault_at(token, "Only list types can be indexed."@)),
        },
    }
}

/// Why what a place holds has no fields to assign to: the error of reading
/// it, or that it is no instance. `None` where it has.
pub open spec fn refused_field(p: PlaceModel, name: TokenModel, env: Seq<Seq<BindingValue>>) -> Option<Fault> {
    match read_place(p, env) {
        Err(e) => Some(e),
        Ok(Some(Value::Instance(_))) => None,
        Ok(_) => Some(fault_at(name, "Only instances have fields."@)),
    }
}

/// The place that an expression names. A variable, `this`, a property and an
/// indexed slot are places; any other expression is evaluated, and its value
/// is a place that no storage holds. What is indexed is looked at before
/// the index is evaluated.
pub open spec fn resolve(e: Expr, s: State, fuel: nat) -> Resolved
    decreases fuel, 0nat,
{
    if fuel == 0 {
        Resolved { state: s, result: Err(exhausted()) }
    } else {
        let f = (fuel - 1) as nat;
        match e {
            Expr::Var { name } => Resolved { state: s, result: Ok(PlaceModel::Var(name@)) },
            Expr::This { keyword } => Resolved { state: s, result: Ok(PlaceModel::This(keyword@)) },
            Expr::Get { object, name } => {
                let base = resolve(*object, s, f);
                match base.result {
                    Err(e) => base,
                    Ok(p) => Resolved { state: base.state, result: Ok(PlaceModel::Field(Box::new(p), name@)) },
                }
            },
            Expr::IndexGet { object, keyword, index } => {
                let base = resolve(*object, s, f);
                match base.result {
                    Err(e) => base,
                    Ok(p) => match refused_index(p, keyword@, base.state.env) {
                        Some(e) => Resolved { state: base.state, result: Err(e) },
                        None => {
                            let i = eval(*index, base.state, f);
                            match i.result {
                                Err(e) => Resolved { state: i.state, result: Err(e) },
                                Ok(Some(Value::Number(n))) => Resolved {
                                    state: i.state,
                                    result: Ok(PlaceModel::Index(Box::new(p), keyword@, n)),
                                },
                                Ok(_) => Resolved {
                                    state: i.state,
                                    result: Err(fault_at(keyword@, "Index must be a number type."@)),
                                },
                            }
                        },
                    },
                }
            },
            _ => {
                let v = eval(e, s, f);
                match v.result {
                    Err(e) => Resolved { state: v.state, result: Err(e) },
                    Ok(v0) => Resolved { state: v.state, result: Ok(PlaceModel::Temp(v0)) },
                }
            },
        }
    }
}

/// A variable, `this`, a property or an indexed slot: what its place holds.
pub open spec fn eval_place(e: Expr, s: State, fuel: nat) -> Step
    decreases fuel, 1nat,
{
    let r = resolve(e, s, fuel);
    match r.result {
        Err(e) => failed(r.state, e),
        Ok(p) => Step { state: r.state, result: read_place(p, r.state.env) },
    }
}

/// A binary operator: the right operand is evaluated first.
pub open spec fn eval_binary(left: Expr, op: TokenModel, right: Expr, s: State, fuel: nat) -> Step
    decreases fuel, 1nat,
{
    let r = eval(right, s, fuel);
    match r.result {
        Err(_) => r,
        Ok(b) => {
            let l = eval(left, r.state, fuel);
            match l.result {
                Err(_) => l,
                Ok(a) => Step { state: l.state, result: at_token(binary_value(op.kind, a, b), op) },
            }
        },
    }
}

/// `c ? a : b`: the condition, then `b`, then `a` are evaluated; the
/// condition must be a boolean.
pub open spec fn eval_ternary(condition: Expr, op: TokenModel, left: Expr, right: Expr, s: State, fuel: nat) -> Step
    decreases fuel, 1nat,
{
    let c = eval(condition, s, fuel);
    match c.result {
        Err(_) => c,
        Ok(cv) => {
            let r = eval(right, c.state, fuel);
            match r.result {
                Err(_) => r,
                Ok(rv) => {
                    let l = eval(left, r.state, fuel);
                    match l.result {
                        Err(_) => l,
                        Ok(lv) => match cv {
                            Some(Value::Boolean(b)) => done(
                                l.state,
                                if b {
                                    lv
                                } else {
                                    rv
                                },
                            ),
                            _ => failed(l.state, fault_at(op, "Invalid condition for Ternary"@)),
                        },
                    }
                },
            }
        },
    }
}

/// A prefix operator. `++` and `--` read a number from the operand's place,
/// write the number one above or below it, and give the number read.
pub open spec fn eval_unary(op: TokenModel, right: Expr, s: State, fuel: nat) -> Step
    decreases fuel, 1nat,
{
    if op.kind == TokenType::Incr || op.kind == TokenType::Decr {
        let r = resolve(right, s, fuel);
        match r.result {
            Err(e) => failed(r.state, e),
            Ok(p) => match read_place(p, r.state.env) {
                Err(e) => failed(r.state, e),
                Ok(Some(Value::Number(x))) => {
                    let y = if op.kind == TokenType::Incr {
                        x.plus(Number::one())
                    } else {
                        x.minus(Number::one())
                    };
                    match write_place(p, r.state.env, Some(Value::Number(y))) {
                        Err(e) => failed(r.state, e),
                        Ok(env) => done(with_env(r.state, env), Some(Value::Number(x))),
                    }
                },
                Ok(_) => failed(r.state, fault_at(op, "Operand must be a Number."@)),
            },
        }
    } else {
        let r = eval(right, s, fuel);
        match r.result {
            Err(_) => r,
            Ok(v) => Step { state: r.state, result: at_token(unary_value(op.kind, v), op) },
        }
    }
}

/// `super.method`: the superclass's method bound to the current `this`.
pub open spec fn eval_super(keyword: TokenModel, method: TokenModel, s: State) -> Step {
    let lost = failed(s, fault_at(keyword, "Could not find current this."@));
    match env_lookup(s.env, "this"@) {
        Some(Some(Value::Instance(i))) => match i.class.super_class {
            Some(sc) => match find_method(*sc, method.lexeme) {
                Some(m) => done(
                    s,
                    Some(
                        Value::Function(
                            CallableValue::User(bound(m, InstanceValue { class: *sc, fields: i.fields })),
                        ),
                    ),
                ),
                None => lost,
            },
            None => lost,
        },
        _ => lost,
    }
}

/// An assignment to a variable: the value is evaluated, combined with what
/// the variable holds, and written back.
pub open spec fn eval_assign(name: TokenModel, op: Option<TokenType>, value: Expr, s: State, fuel: nat) -> Step
    decreases fuel, 1nat,
{
    let v = eval(value, s, fuel);
    match v.result {
        Err(_) => v,
        Ok(rhs) => match read_place(PlaceModel::Var(name), v.state.env) {
            Err(e) => failed(v.state, e),
            Ok(current) => match at_token(assign_value(op, current, rhs), name) {
                Err(e) => failed(v.state, e),
                Ok(stored) => match write_place(PlaceModel::Var(name), v.state.env, stored) {
                    Err(e) => failed(v.state, e),
                    Ok(env) => done(with_env(v.state, env), stored),
                },
            },
        },
    }
}

/// `and` and `or`: the left value where it decides, else the right value.
pub open spec fn eval_logical(left: Expr, op: TokenModel, right: Expr, s: State, fuel: nat) -> Step
    decreases fuel, 1nat,
{
    let l = eval(left, s, fuel);
    match l.result {
        Err(_) => l,
        Ok(v) => if (op.kind == TokenType::Or) == truthy(v) {
            l
        } else {
            eval(right, l.state, fuel)
        },
    }
}

/// The expressions from index `i` on, evaluated left to right after `acc`.
pub open spec fn eval_list(exprs: Seq<Expr>, i: int, acc: Seq<Option<Value>>, s: State, fuel: nat) -> Values
    decreases fuel, 1 + exprs.len() - i,
{
    if i < 0 || i >= exprs.len() {
        Values { state: s, result: Ok(acc) }
    } else {
        let v = eval(exprs[i], s, fuel);
        match v.result {
            Err(e) => Values { state: v.state, result: Err(e) },
            Ok(x) => eval_list(exprs, i + 1, acc.push(x), v.state, fuel),
        }
    }
}

/// A list literal.
pub open spec fn eval_index(collection: Seq<Expr>, s: State, fuel: nat) -> Step
    decreases fuel, 2 + collection.len(),
{
    let items = eval_list(collection, 0, Seq::empty(), s, fuel);
    match items.result {
        Err(e) => failed(items.state, e),
        Ok(v) => done(items.state, Some(Value::Collection(v))),
    }
}

/// An assignment to a field. The object's place is found and must hold an
/// instance; only then is the value evaluated. What the field holds, where
/// it exists, is combined with the value; the instance with the field set is
/// written back to its place.
pub open spec fn eval_field_set(
    object: Expr,
    name: TokenModel,
    op: Option<TokenType>,
    value: Expr,
    s: State,
    fuel: nat,
) -> Step
    decreases fuel, 1nat,
{
    let o = resolve(object, s, fuel);
    match o.result {
        Err(e) => failed(o.state, e),
        Ok(p) => if refused_field(p, name, o.state.env) is Some {
            failed(o.state, refused_field(p, name, o.state.env)->Some_0)
        } else {
            let v = eval(value, o.state, fuel);
            match v.result {
                Err(_) => v,
                Ok(rhs) => match read_place(p, v.state.env) {
                    Err(e) => failed(v.state, e),
                    Ok(Some(Value::Instance(i))) => {
                        let stored = match instance_get(i, name) {
                            Ok(current) => at_token(assign_value(op, current, rhs), name),
                            Err(_) => Ok(rhs),
                        };
                        match stored {
                            Err(e) => failed(v.state, e),
                            Ok(x) => match write_place(
                                p,
                                v.state.env,
                                Some(Value::Instance(instance_set(i, name.lexeme, x))),
                            ) {
                                Err(e) => failed(v.state, e),
                                Ok(env) => done(with_env(v.state, env), x),
                            },
                        }
                    },
                    Ok(_) => failed(v.state, fault_at(name, "Only instances have fields."@)),
                },
            }
        },
    }
}

/// An assignment to a slot of a collection or of a string. The object's
/// place is found and must hold a collection or a string; only then are the
/// index and the value evaluated. What the slot holds is combined with the
/// value; the collection with the slot set, or the string joined again, is
/// written back to its place.
pub open spec fn eval_index_set(
    object: Expr,
    name: TokenModel,
    index: Expr,
    op: Option<TokenType>,
    value: Expr,
    s: State,
    fuel: nat,
) -> Step
    decreases fuel, 1nat,
{
    let o = resolve(object, s, fuel);
    match o.result {
        Err(e) => failed(o.state, e),
        Ok(p) => if refused_index(p, name, o.state.env) is Some {
            failed(o.state, refused_index(p, name, o.state.env)->Some_0)
        } else {
            let i = eval(index, o.state, fuel);
            match i.result {
                Err(_) => i,
                Ok(Some(Value::Number(n))) => {
                    let v = eval(value, i.state, fuel);
                    match v.result {
                        Err(_) => v,
                        Ok(rhs) => Step {
                            state: match slot_assigned(p, name, n, op, rhs, v.state.env) {
                                Ok((env, _)) => with_env(v.state, env),
                                Err(_) => v.state,
                            },
                            result: match slot_assigned(p, name, n, op, rhs, v.state.env) {
                                Ok((_, x)) => Ok(x),
                                Err(e) => Err(e),
                            },
                        },
                    }
                },
                Ok(_) => failed(i.state, fault_at(name, "Index must be a number type."@)),
            }
        },
    }
}

/// The environment and the stored value after an assignment to slot `n` of
/// what `p` holds.
pub open spec fn slot_assigned(
    p: PlaceModel,
    name: TokenModel,
    n: Number,
    op: Option<TokenType>,
    rhs: Option<Value>,
    env: Seq<Seq<BindingValue>>,
) -> Result<(Seq<Seq<BindingValue>>, Option<Value>), Fault> {
    match read_place(p, env) {
        Err(e) => Err(e),
        Ok(whole) => match items_of(whole) {
            None => Err(fault_at(name, "Only list types can be indexed."@)),
            Some(items) => if items.len() == 0 {
                Err(fault_at(name, "Index out of range."@))
            } else {
                let k = wrap_index(n.truncation() as int, items.len() as int);
                match at_token(assign_value(op, items[k], rhs), name) {
                    Err(e) => Err(e),
                    Ok(x) => match write_place(p, env, rebuilt(whole, items.update(k, x))) {
                        Err(e) => Err(e),
                        Ok(e2) => Ok((e2, x)),
                    },
                }
            },
        },
    }
}

/// The state in which the body of a called function starts.
pub open spec fn entered(s: State, f: FunctionValue, args: Seq<Option<Value>>, in_new_scope: bool) -> State {
    with_env(s, call_env(f, args, in_new_scope))
}

/// The outcome of a call whose body ended in `body`: the caller's
/// environment is as it was in `s`, and what was printed stays printed.
pub open spec fn left(s: State, is_initializer: bool, body: Step) -> Called {
    Called {
        state: with_env(body.state, s.env),
        result: call_result(is_initializer, body.result, env_lookup(body.state.env, "this"@)),
        this_after: env_lookup(body.state.env, "this"@),
    }
}

/// A call of a user function: the body runs in the function's environment
/// with the parameters bound; the caller's environment is as it was
/// afterwards. An initializer gives what `this` is bound to at the end.
pub open spec fn call_function(
    f: FunctionValue,
    args: Seq<Option<Value>>,
    in_new_scope: bool,
    s: State,
    fuel: nat,
) -> Called
    decreases fuel, 0nat,
{
    if fuel == 0 {
        Called { state: s, result: Err(exhausted()), this_after: None }
    } else {
        left(
            s,
            f.is_initializer,
            exec_block(f.declaration.body@, 0, None, entered(s, f, args, in_new_scope), (fuel - 1) as nat),
        )
    }
}

/// A call of a class: a fresh instance, after the initializer, where the
/// class has one, ran on it.
pub open spec fn instantiate(c: ClassValue, args: Seq<Option<Value>>, s: State, fuel: nat) -> Called
    decreases fuel, 1nat,
{
    let instance = instance_of(c);
    match initializer(c) {
        None => Called { state: s, result: Ok(Some(Value::Instance(instance))), this_after: None },
        Some(init) => {
            let r = call_function(bound(init, instance), args, true, s, fuel);
            Called {
                state: r.state,
                result: match r.result {
                    Err(e) => Err(e),
                    Ok(_) => match r.this_after {
                        Some(Some(v)) => Ok(Some(v)),
                        _ => Ok(Some(Value::Instance(instance))),
                    },
                },
                this_after: None,
            }
        },
    }
}

/// A call of a value: the arity is checked first, and a mismatch changes
/// nothing.
pub open spec fn call_value(
    callee: Option<Value>,
    args: Seq<Option<Value>>,
    in_new_scope: bool,
    paren: TokenModel,
    otherwise: Fault,
    s: State,
    fuel: nat,
) -> Called
    decreases fuel, 2nat,
{
    match callee {
        Some(Value::Function(c)) => if callable_arity(c) != args.len() {
            Called {
                state: s,
                result: Err(fault_at(paren, arity_message(callable_arity(c), args.len()))),
                this_after: None,
            }
        } else {
            match c {
                CallableValue::User(f) => call_function(f, args, in_new_scope, s, fuel),
                CallableValue::Native(b) => call_builtin(b, args, paren, s),
            }
        },
        Some(Value::Class(c)) => if class_arity(c) != args.len() {
            Called {
                state: s,
                result: Err(fault_at(paren, arity_message(class_arity(c), args.len()))),
                this_after: None,
            }
        } else {
            instantiate(c, args, s, fuel)
        },
        _ => Called { state: s, result: Err(otherwise), this_after: None },
    }
}

/// A call expression: the callee's place is found and read, the arguments
/// are evaluated left to right, the value is called, and what the callee did
/// to `this` is written back.
pub open spec fn eval_call(callee: Expr, paren: TokenModel, arguments: Seq<Expr>, s: State, fuel: nat) -> Step
    decreases fuel, 3 + arguments.len(),
{
    let target = resolve(callee, s, fuel);
    match target.result {
        Err(e) => failed(target.state, e),
        Ok(p) => match read_place(p, target.state.env) {
            Err(e) => failed(target.state, e),
            Ok(function) => {
                let args = eval_list(arguments, 0, Seq::empty(), target.state, fuel);
                match args.result {
                    Err(e) => failed(args.state, e),
                    Ok(values) => {
                        let c = call_value(
                            function,
                            values,
                            fresh_scope(callee),
                            paren,
                            not_callable(callee, paren),
                            args.state,
                            fuel,
                        );
                        match c.result {
                            Err(e) => failed(c.state, e),
                            Ok(v) => match reprojected(
                                write_back_of(callee, p, target.state.env),
                                p,
                                c.this_after,
                                c.state.env,
                            ) {
                                Err(e) => failed(c.state, e),
                                Ok(env) => done(with_env(c.state, env), v),
                            },
                        }
                    },
                }
            },
        }
    }
}

/// What a statement does. The result is nil, or the marker of a `return`,
/// `break` or `continue` on its way out.
pub open spec fn exec(stmt: Stmt, s: State, fuel: nat) -> Step
    decreases fuel, 0nat,
{
    if fuel == 0 {
        failed(s, exhausted())
    } else {
        let f = (fuel - 1) as nat;
        match stmt {
            Stmt::Expression { expression } => {
                let r = eval(expression, s, f);
                match r.result {
                    Err(_) => r,
                    Ok(_) => done(r.state, None),
                }
            },
            Stmt::Var { name, initializer } => match initializer {
                Some(init) => {
                    let r = eval(init, s, f);
                    match r.result {
                        Err(_) => r,
                        Ok(v) => done(with_env(r.state, env_define(r.state.env, name@.lexeme, v)), None),
                    }
                },
                None => done(with_env(s, env_define(s.env, name@.lexeme, None)), None),
            },
            Stmt::Print { expression } => {
                let r = eval(expression, s, f);
                match r.result {
                    Err(_) => r,
                    Ok(v) => done(with_output(r.state, r.state.output.push(render(v, true))), None),
                }
            },
            Stmt::Block { statements } => {
                let r = exec_block(statements@, 0, None, with_env(s, s.env.push(Seq::empty())), f);
                Step { state: with_env(r.state, env_pop(r.state.env)), result: r.result }
            },
            Stmt::Class { name, super_class, methods } => exec_class(name@, super_class, methods@, s, f),
            Stmt::If { condition, then_branch, else_branch } => {
                let c = eval(condition, s, f);
                match c.result {
                    Err(_) => c,
                    Ok(v) => if truthy(v) {
                        exec(*then_branch, c.state, f)
                    } else {
                        match else_branch {
                            Some(b) => exec(*b, c.state, f),
                            None => done(c.state, None),
                        }
                    },
                }
            },
            Stmt::While { condition, body, loop_type } => exec_while(condition, *body, loop_type, s, f),
            Stmt::Function { declaration } => done(
                with_env(s, env_define(s.env, declaration.name@.lexeme, Some(declared(declaration, s.env)))),
                None,
            ),
            Stmt::Return { keyword, value } => match value {
                Some(e) => {
                    let r = eval(e, s, f);
                    match r.result {
                        Err(_) => r,
                        Ok(v) => done(r.state, Some(Value::Return(Box::new(v)))),
                    }
                },
                None => done(s, Some(Value::Return(Box::new(None)))),
            },
            Stmt::Break { keyword } => done(s, Some(Value::Keyword(Signal::Break))),
            Stmt::Continue { keyword } => done(s, Some(Value::Keyword(Signal::Continue))),
        }
    }
}

/// The statements of a block from index `i` on. A `return` ends the block
/// with its marker; a loop signal is kept, the last one seen, and handed out
/// when the block has run to its end.
pub open spec fn exec_block(stmts: Seq<Stmt>, i: int, pending: Option<Value>, s: State, fuel: nat) -> Step
    decreases fuel, 1 + stmts.len() - i,
{
    if i < 0 || i >= stmts.len() {
        done(s, pending)
    } else {
        let r = exec(stmts[i], s, fuel);
        match r.result {
            Err(_) => r,
            Ok(Some(Value::Return(_))) => r,
            Ok(Some(Value::Keyword(k))) => exec_block(stmts, i + 1, Some(Value::Keyword(k)), r.state, fuel),
            Ok(_) => exec_block(stmts, i + 1, pending, r.state, fuel),
        }
    }
}

/// A class declaration.
pub open spec fn exec_class(
    name: TokenModel,
    super_class: Option<Expr>,
    methods: Seq<Rc<FunctionDecl>>,
    s: State,
    fuel: nat,
) -> Step
    decreases fuel, 1nat,
{
    match super_class {
        Some(e) => {
            let r = eval(e, s, fuel);
            match r.result {
                Err(_) => r,
                Ok(Some(Value::Class(c))) => done(
                    with_env(
                        r.state,
                        class_defined(
                            name,
                            Some(Box::new(c)),
                            methods,
                            env_define(r.state.env, super_key(name.lexeme), Some(Value::Class(c))),
                        ),
                    ),
                    None,
                ),
                Ok(_) => failed(r.state, fault_at(name, "Super-class must be a class."@)),
            }
        },
        None => done(with_env(s, class_defined(name, None, methods, s.env)), None),
    }
}

/// The environment with the class bound to its name. The methods capture
/// the environment in which the name is still nil.
pub open spec fn class_defined(
    name: TokenModel,
    super_class: Option<Box<ClassValue>>,
    methods: Seq<Rc<FunctionDecl>>,
    env: Seq<Seq<BindingValue>>,
) -> Seq<Seq<BindingValue>> {
    let declared = env_define(env, name.lexeme, None);
    let class = ClassValue {
        name: name.lexeme,
        methods: class_methods(methods, name.lexeme, declared),
        super_class,
    };
    match env_assign(declared, name.lexeme, Some(Value::Class(class))) {
        Some(e) => e,
        None => declared,
    }
}

/// The statements of a loop's body from index `i` on, up to the first
/// marker.
pub open spec fn run_body(stmts: Seq<Stmt>, i: int, s: State, fuel: nat) -> Step
    decreases fuel, 1 + stmts.len() - i,
{
    if i < 0 || i >= stmts.len() {
        done(s, None)
    } else {
        let r = exec(stmts[i], s, fuel);
        match r.result {
            Err(_) => r,
            Ok(Some(Value::Return(_))) => r,
            Ok(Some(Value::Keyword(_))) => r,
            Ok(_) => run_body(stmts, i + 1, r.state, fuel),
        }
    }
}

/// What `continue` runs before the condition is tested again: the last
/// statement of a `for` body, the last two of a `for each` body.
pub open spec fn post_steps(stmts: Seq<Stmt>, loop_type: LoopType, s: State, fuel: nat) -> Step
    decreases fuel, 1nat,
{
    match loop_type {
        LoopType::While => done(s, None),
        LoopType::For => if stmts.len() >= 1 {
            exec(stmts[stmts.len() - 1], s, fuel)
        } else {
            done(s, None)
        },
        LoopType::ForEach => if stmts.len() >= 2 {
            let a = exec(stmts[stmts.len() - 2], s, fuel);
            match a.result {
                Err(_) => a,
                Ok(_) => exec(stmts[stmts.len() - 1], a.state, fuel),
            }
        } else {
            done(s, None)
        },
    }
}

/// One pass through a loop's body.
pub open spec fn loop_body(body: Stmt, s: State, fuel: nat) -> Step
    decreases fuel, 2 + flatten(body).len(),
{
    match body {
        Stmt::Block { .. } => run_body(flatten(body), 0, s, fuel),
        _ => exec(body, s, fuel),
    }
}

/// A loop. `break` ends it, `continue` runs the post-steps and goes on, a
/// `return` ends it with its marker.
pub open spec fn exec_while(condition: Expr, body: Stmt, loop_type: LoopType, s: State, fuel: nat) -> Step
    decreases fuel, 3 + flatten(body).len(),
{
    let c = eval(condition, s, fuel);
    match c.result {
        Err(_) => c,
        Ok(v) => if !truthy(v) {
            done(c.state, None)
        } else {
            let b = loop_body(body, c.state, fuel);
            match b.result {
                Err(_) => b,
                Ok(Some(Value::Return(_))) => b,
                Ok(Some(Value::Keyword(Signal::Break))) => done(b.state, None),
                Ok(Some(Value::Keyword(Signal::Continue))) => {
                    let p = match body {
                        Stmt::Block { .. } => post_steps(flatten(body), loop_type, b.state, fuel),
                        _ => done(b.state, None),
                    };
                    match p.result {
                        Err(_) => p,
                        Ok(_) => if fuel == 0 {
                            failed(p.state, exhausted())
                        } else {
                            exec_while(condition, body, loop_type, p.state, (fuel - 1) as nat)
                        },
                    }
                },
                Ok(_) => if fuel == 0 {
                    failed(b.state, exhausted())
                } else {
                    exec_while(condition, body, loop_type, b.state, (fuel - 1) as nat)
                },
            }
        },
    }
}

/// A program from statement `i` on: the first error ends the program.
pub open spec fn run_program(stmts: Seq<Stmt>, i: int, s: State, fuel: nat) -> Step
    decreases stmts.len() - i,
{
    if i < 0 || i >= stmts.len() {
        done(s, None)
    } else {
        let r = exec(stmts[i], s, fuel);
        match r.result {
            Err(_) => r,
            Ok(_) => run_program(stmts, i + 1, r.state, fuel),
        }
    }
}

} // verus!
