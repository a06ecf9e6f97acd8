//! Places: the storage that an expression names, a variable, a field of an
//! instance or a slot of a collection, and how a value is read from one and
//! written to one.

use crate::class::instance_get;
use crate::class::instance_set;
use crate::environment::env_assign;
use crate::environment::env_get;
use crate::environment::env_lookup;
use crate::environment::undefined_variable;
use crate::environment::view_result;
use crate::number::Number;
use crate::operators::chars_of;
use crate::operators::element_at;
use crate::operators::index_value;
use crate::operators::join_strings;
use crate::operators::joined;
use crate::operators::split_chars;
use crate::operators::wrap;
use crate::operators::wrap_index;
use crate::token::fault;
use crate::token::view_fault;
use crate::token::Fault;
use crate::token::RuntimeError;
use crate::token::Token;
use crate::token::TokenModel;
use crate::value::view_items;
use crate::value::view_slot;
use crate::value::Environment;
use crate::value::Literal;
use crate::value::Value;
use vstd::prelude::*;

verus! {

/// A place. The tokens are those of the expression that names it; the index
/// of a slot has been evaluated. `Temp` is a value that no storage holds.
pub enum Place<'a> {
    Var(&'a Token),
    This(&'a Token),
    Field(Box<Place<'a>>, &'a Token),
    Index(Box<Place<'a>>, &'a Token, Number),
    Temp(Option<Literal>),
}

/// What a place is in contracts.
pub ghost enum PlaceModel {
    Var(TokenModel),
    This(TokenModel),
    Field(Box<PlaceModel>, TokenModel),
    Index(Box<PlaceModel>, TokenModel, Number),
    Temp(Option<Value>),
}

/// What a place is in contracts.
pub open spec fn view_place(p: Place) -> PlaceModel
    decreases p,
{
    match p {
        Place::Var(t) => PlaceModel::Var(t@),
        Place::This(t) => PlaceModel::This(t@),
        Place::Field(base, t) => PlaceModel::Field(Box::new(view_place(*base)), t@),
        Place::Index(base, t, n) => PlaceModel::Index(Box::new(view_place(*base)), t@, n),
        Place::Temp(v) => PlaceModel::Temp(view_slot(v)),
    }
}

impl<'a> View for Place<'a> {
    type V = PlaceModel;

    open spec fn view(&self) -> PlaceModel {
        view_place(*self)
    }
}

/// The error for `token` with `message`.
pub open spec fn fault_at(token: TokenModel, message: Seq<char>) -> Fault {
    Fault { token, message }
}

/// What `this` is bound to, or the error at `token`.
pub open spec fn this_value(env: Seq<Seq<crate::value::BindingValue>>, token: TokenModel) -> Result<
    Option<Value>,
    Fault,
> {
    match env_lookup(env, "this"@) {
        Some(v) => Ok(v),
        None => Err(fault_at(token, undefined_variable("this"@))),
    }
}

/// What a collection or a string holds, as items; `None` for any other value.
pub open spec fn items_of(v: Option<Value>) -> Option<Seq<Option<Value>>> {
    match v {
        Some(Value::Collection(c)) => Some(c),
        Some(Value::String(s)) => Some(chars_of(s)),
        _ => None,
    }
}

/// The value that takes the place of `whole` once its items are `items`: a
/// collection for a collection, the strings joined for a string.
pub open spec fn rebuilt(whole: Option<Value>, items: Seq<Option<Value>>) -> Option<Value> {
    match whole {
        Some(Value::String(_)) => Some(Value::String(joined(items))),
        _ => Some(Value::Collection(items)),
    }
}

/// The value that a place holds.
pub open spec fn read_place(p: PlaceModel, env: Seq<Seq<crate::value::BindingValue>>) -> Result<
    Option<Value>,
    Fault,
>
    decreases p,
{
    match p {
        PlaceModel::Var(t) => env_get(env, t),
        PlaceModel::This(t) => this_value(env, t),
        PlaceModel::Field(base, name) => match read_place(*base, env) {
            Err(e) => Err(e),
            Ok(Some(Value::Instance(i))) => instance_get(i, name),
            Ok(_) => Err(fault_at(name, "Only instances have properties."@)),
        },
        PlaceModel::Index(base, keyword, n) => match read_place(*base, env) {
            Err(e) => Err(e),
            Ok(whole) => match items_of(whole) {
                Some(items) => Ok(element_at(items, n)),
                None => Err(fault_at(keyword, "Only list types can be indexed."@)),
            },
        },
        PlaceModel::Temp(v) => Ok(v),
    }
}

/// The environment after `value` was written to a place. A write to a field
/// or a slot rewrites the instance or collection that holds it, up to the
/// variable at the root; a write to a value that no storage holds is dropped.
pub open spec fn write_place(
    p: PlaceModel,
    env: Seq<Seq<crate::value::BindingValue>>,
    value: Option<Value>,
) -> Result<Seq<Seq<crate::value::BindingValue>>, Fault>
    decreases p,
{
    match p {
        PlaceModel::Var(t) => match env_assign(env, t.lexeme, value) {
            Some(e) => Ok(e),
            None => Err(fault_at(t, undefined_variable(t.lexeme))),
        },
        PlaceModel::This(t) => match env_assign(env, "this"@, value) {
            Some(e) => Ok(e),
            None => Err(fault_at(t, undefined_variable("this"@))),
        },
        PlaceModel::Field(base, name) => match read_place(*base, env) {
            Err(e) => Err(e),
            Ok(Some(Value::Instance(i))) => write_place(
                *base,
                env,
                Some(Value::Instance(instance_set(i, name.lexeme, value))),
            ),
            Ok(_) => Err(fault_at(name, "Only instances have fields."@)),
        },
        PlaceModel::Index(base, keyword, n) => match read_place(*base, env) {
            Err(e) => Err(e),
            Ok(whole) => match items_of(whole) {
                Some(items) => if items.len() == 0 {
                    Err(fault_at(keyword, "Index out of range."@))
                } else {
                    write_place(
                        *base,
                        env,
                        rebuilt(
                            whole,
                            items.update(wrap_index(n.truncation() as int, items.len() as int), value),
                        ),
                    )
                },
                None => Err(fault_at(keyword, "Only list types can be indexed."@)),
            },
        },
        PlaceModel::Temp(_) => Ok(env),
    }
}

/// A copy of what `this` is bound to.
pub fn current_this(env: &Environment, token: &Token) -> (r: RuntimeError<Option<Literal>>)
    ensures
        view_result(r) == this_value(env@, token@),
{
    let name = String::from_str("this");
    match env.lookup(&name) {
        Some(v) => Ok(v),
        None => {
            let mut message = String::from_str("Undefined variable '");
            message.append("this");
            message.append("'.");
            Err((token.copy(), message))
        },
    }
}

/// The items of a collection, or of a string split into code points.
pub fn take_items(v: Option<Literal>) -> (r: Result<(Vec<Option<Literal>>, bool), Option<Literal>>)
    ensures
        match r {
            Ok((items, text)) => items_of(view_slot(v)) == Some(view_items(items)) && text == (view_slot(
                v,
            ) matches Some(Value::String(_))),
            Err(w) => items_of(view_slot(v)) is None && view_slot(w) == view_slot(v),
        },
{
    match v {
        Some(Literal::Collection(c)) => Ok((c, false)),
        Some(Literal::String(s)) => Ok((split_chars(&s), true)),
        other => Err(other),
    }
}

impl<'a> Place<'a> {
    /// Reads the place in `env`.
    pub fn read(&self, env: &Environment) -> (r: RuntimeError<Option<Literal>>)
        ensures
            view_result(r) == read_place(self@, env@),
        decreases self,
    {
        match self {
            Place::Var(t) => env.get(t),
            Place::This(t) => current_this(env, t),
            Place::Field(base, name) => match base.read(env) {
                Err(e) => Err(e),
                Ok(Some(Literal::Instance(i))) => i.get(name),
                Ok(_) => Err(fault(name, "Only instances have properties.")),
            },
            Place::Index(base, keyword, n) => match base.read(env) {
                Err(e) => Err(e),
                Ok(whole) => match take_items(whole) {
                    Ok((items, _)) => Ok(index_value(&items, *n)),
                    Err(_) => Err(fault(keyword, "Only list types can be indexed.")),
                },
            },
            Place::Temp(v) => Ok(crate::value::copy_slot(v)),
        }
    }

    /// Writes `value` to the place in `env`; an error leaves `env` as it was.
    pub fn write(&self, env: &mut Environment, value: Option<Literal>) -> (r: RuntimeError<()>)
        ensures
            match write_place(self@, old(env)@, view_slot(value)) {
                Ok(e) => r is Ok && final(env)@ == e,
                Err(f) => r is Err && view_fault(r->Err_0) == f && final(env)@ == old(env)@,
            },
        decreases self,
    {
        match self {
            Place::Var(t) => env.assign(t, value),
            Place::This(t) => {
                let name = String::from_str("this");
                if env.update(&name, value) {
                    Ok(())
                } else {
                    let mut message = String::from_str("Undefined variable '");
                    message.append("this");
                    message.append("'.");
                    Err((t.copy(), message))
                }
            },
            Place::Field(base, name) => match base.read(env) {
                Err(e) => Err(e),
                Ok(Some(Literal::Instance(i))) => {
                    let mut instance = i;
                    instance.set(&name.lexeme, value);
                    base.write(env, Some(Literal::Instance(instance)))
                },
                Ok(_) => Err(fault(name, "Only instances have fields.")),
            },
            Place::Index(base, keyword, n) => match base.read(env) {
                Err(e) => Err(e),
                Ok(whole) => match take_items(whole) {
                    Ok((items, text)) => {
                        if items.len() == 0 {
                            Err(fault(keyword, "Index out of range."))
                        } else {
                            let mut items = items;
                            let k: usize = wrap(n.to_i32(), items.len());
                            let ghost before = view_items(items);
                            items.set(k, value);
                            assert(view_items(items) =~= before.update(k as int, view_slot(value)));
                            let stored = if text {
                                Literal::String(join_strings(&items))
                            } else {
                                Literal::Collection(items)
                            };
                            base.write(env, Some(stored))
                        }
                    },
                    Err(_) => Err(fault(keyword, "Only list types can be indexed.")),
                },
            },
            Place::Temp(_) => Ok(()),
        }
    }
}

} // verus!
