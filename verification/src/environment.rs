//! Environments: nested scopes of names.

use crate::token::view_fault;
use crate::token::Fault;
use crate::token::RuntimeError;
use crate::token::Token;
use crate::token::TokenModel;
use crate::value::copy_slot;
use crate::value::view_bindings;
use crate::value::view_slot;
use crate::value::Binding;
use crate::value::BindingValue;
use crate::value::Environment;
use crate::value::Literal;
use crate::value::Scope;
use crate::value::Value;
use vstd::prelude::*;

verus! {

/// The first index at or after `from` at which `name` is bound in a scope,
/// or the scope's length.
pub open spec fn find_binding(scope: Seq<BindingValue>, name: Seq<char>, from: int) -> int
    decreases scope.len() - from,
{
    if from < 0 || from >= scope.len() {
        scope.len() as int
    } else if scope[from].name == name {
        from
    } else {
        find_binding(scope, name, from + 1)
    }
}

/// Whether `name` is bound in a scope.
pub open spec fn scope_has(scope: Seq<BindingValue>, name: Seq<char>) -> bool {
    find_binding(scope, name, 0) < scope.len()
}

/// What `name` is bound to in a scope that has it.
pub open spec fn scope_get(scope: Seq<BindingValue>, name: Seq<char>) -> Option<Value> {
    scope[find_binding(scope, name, 0)].value
}

/// The scope with `name` bound to `value`: in place where the scope has the
/// name, at the end otherwise.
pub open spec fn scope_define(scope: Seq<BindingValue>, name: Seq<char>, value: Option<Value>) -> Seq<
    BindingValue,
> {
    let i = find_binding(scope, name, 0);
    if i < scope.len() {
        scope.update(i, BindingValue { name, value })
    } else {
        scope.push(BindingValue { name, value })
    }
}

/// The environment with `name` bound in its innermost scope.
pub open spec fn env_define(env: Seq<Seq<BindingValue>>, name: Seq<char>, value: Option<Value>) -> Seq<
    Seq<BindingValue>,
> {
    if env.len() == 0 {
        seq![scope_define(Seq::empty(), name, value)]
    } else {
        env.update(env.len() - 1, scope_define(env.last(), name, value))
    }
}

/// The index of the innermost scope at or below `from` that has `name`, or -1.
pub open spec fn find_scope(env: Seq<Seq<BindingValue>>, name: Seq<char>, from: int) -> int
    decreases from + 1,
{
    if from < 0 || from >= env.len() {
        -1
    } else if scope_has(env[from], name) {
        from
    } else {
        find_scope(env, name, from - 1)
    }
}

/// What `name` is bound to: `None` where no scope has it.
pub open spec fn env_lookup(env: Seq<Seq<BindingValue>>, name: Seq<char>) -> Option<Option<Value>> {
    let i = find_scope(env, name, env.len() - 1);
    if i < 0 {
        None
    } else {
        Some(scope_get(env[i], name))
    }
}

/// The environment after `name` was given `value` in the innermost scope
/// that has it: `None` where no scope has it.
pub open spec fn env_assign(env: Seq<Seq<BindingValue>>, name: Seq<char>, value: Option<Value>) -> Option<
    Seq<Seq<BindingValue>>,
> {
    let i = find_scope(env, name, env.len() - 1);
    if i < 0 {
        None
    } else {
        Some(env.update(i, scope_define(env[i], name, value)))
    }
}

/// The environment without its innermost scope.
pub open spec fn env_pop(env: Seq<Seq<BindingValue>>) -> Seq<Seq<BindingValue>> {
    if env.len() == 0 {
        env
    } else {
        env.drop_last()
    }
}

/// The message for a name that no scope has.
pub open spec fn undefined_variable(name: Seq<char>) -> Seq<char> {
    "Undefined variable '"@ + name + "'."@
}

/// `get` on the model: the value, or the error that carries the token.
pub open spec fn env_get(env: Seq<Seq<BindingValue>>, token: TokenModel) -> Result<Option<Value>, Fault> {
    match env_lookup(env, token.lexeme) {
        Some(v) => Ok(v),
        None => Err(Fault { token, message: undefined_variable(token.lexeme) }),
    }
}

/// The index at which `name` is bound among `bindings`, or their number.
pub fn find_name(bindings: &Vec<Binding>, name: &String) -> (r: usize)
    ensures
        r == find_binding(view_bindings(*bindings), name@, 0),
        r <= bindings.len(),
{
    let mut i: usize = 0;
    while i < bindings.len()
        invariant
            i <= bindings.len(),
            find_binding(view_bindings(*bindings), name@, 0) == find_binding(
                view_bindings(*bindings),
                name@,
                i as int,
            ),
        decreases bindings.len() - i,
    {
        if bindings[i].name == *name {
            return i;
        }
        i += 1;
    }
    i
}

impl Scope {
    /// A scope without names.
    pub fn new() -> (r: Scope)
        ensures
            r@ == Seq::<BindingValue>::empty(),
    {
        let r = Scope { bindings: Vec::new() };
        assert(r@ =~= Seq::<BindingValue>::empty());
        r
    }

    /// The index at which `name` is bound, or the number of bindings.
    pub fn find(&self, name: &String) -> (r: usize)
        ensures
            r == find_binding(self@, name@, 0),
            r <= self.bindings.len(),
    {
        find_name(&self.bindings, name)
    }

    /// Binds `name` to `value`, replacing what it was bound to.
    pub fn define(&mut self, name: String, value: Option<Literal>)
        ensures
            final(self)@ == scope_define(old(self)@, name@, view_slot(value)),
    {
        let i: usize = self.find(&name);
        if i < self.bindings.len() {
            self.bindings.set(i, Binding { name, value });
            assert(self@ =~= scope_define(old(self)@, name@, view_slot(value)));
        } else {
            self.bindings.push(Binding { name, value });
            assert(self@ =~= scope_define(old(self)@, name@, view_slot(value)));
        }
    }
}

impl Environment {
    /// An environment of one empty scope.
    pub fn new() -> (r: Environment)
        ensures
            r@ == seq![Seq::<BindingValue>::empty()],
    {
        let mut scopes: Vec<Scope> = Vec::new();
        scopes.push(Scope::new());
        let r = Environment { scopes };
        assert(r@ =~= seq![Seq::<BindingValue>::empty()]);
        r
    }

    /// `enclosing` with a fresh innermost scope.
    pub fn new_with_enclosing(enclosing: Environment) -> (r: Environment)
        ensures
            r@ == enclosing@.push(Seq::<BindingValue>::empty()),
    {
        let mut r = enclosing;
        r.scopes.push(Scope::new());
        assert(r@ =~= enclosing@.push(Seq::<BindingValue>::empty()));
        r
    }

    /// Opens a fresh innermost scope.
    pub fn push_scope(&mut self)
        ensures
            final(self)@ == old(self)@.push(Seq::<BindingValue>::empty()),
    {
        self.scopes.push(Scope::new());
        assert(self@ =~= old(self)@.push(Seq::<BindingValue>::empty()));
    }

    /// Closes the innermost scope, if there is one.
    pub fn pop_scope(&mut self)
        ensures
            final(self)@ == env_pop(old(self)@),
    {
        let _ = self.scopes.pop();
        assert(self@ =~= env_pop(old(self)@));
    }

    /// Creates or replaces an entry in the innermost scope.
    pub fn define(&mut self, name: String, value: Option<Literal>)
        ensures
            final(self)@ == env_define(old(self)@, name@, view_slot(value)),
    {
        let n: usize = self.scopes.len();
        if n == 0 {
            let mut scope = Scope::new();
            scope.define(name, value);
            self.scopes.push(scope);
            assert(self@ =~= env_define(old(self)@, name@, view_slot(value)));
        } else {
            let mut scope = Scope { bindings: Vec::new() };
            std::mem::swap(&mut scope, &mut self.scopes[n - 1]);
            scope.define(name, value);
            self.scopes.set(n - 1, scope);
            assert(self@ =~= env_define(old(self)@, name@, view_slot(value)));
        }
    }

    /// The index of the innermost scope that has `name`, if any has it.
    fn scope_of(&self, name: &String) -> (r: Option<usize>)
        ensures
            match r {
                Some(i) => i == find_scope(self@, name@, self@.len() - 1) && i < self.scopes.len()
                    && scope_has(self@[i as int], name@),
                None => find_scope(self@, name@, self@.len() - 1) < 0,
            },
    {
        let mut i: usize = self.scopes.len();
        while i > 0
            invariant
                i <= self.scopes.len(),
                find_scope(self@, name@, self@.len() - 1) == find_scope(self@, name@, i - 1),
            decreases i,
        {
            i -= 1;
            let k: usize = self.scopes[i].find(name);
            if k < self.scopes[i].bindings.len() {
                return Some(i);
            }
        }
        None
    }

    /// A copy of what `name` is bound to: `None` where no scope has it.
    pub fn lookup(&self, name: &String) -> (r: Option<Option<Literal>>)
        ensures
            match r {
                Some(v) => env_lookup(self@, name@) == Some(view_slot(v)),
                None => env_lookup(self@, name@) is None,
            },
    {
        match self.scope_of(name) {
            Some(i) => {
                let k: usize = self.scopes[i].find(name);
                Some(copy_slot(&self.scopes[i].bindings[k].value))
            },
            None => None,
        }
    }

    /// Gives `name` a new value in the innermost scope that has it; says
    /// whether any scope has it.
    pub fn update(&mut self, name: &String, value: Option<Literal>) -> (r: bool)
        ensures
            match env_assign(old(self)@, name@, view_slot(value)) {
                Some(e) => r && final(self)@ == e,
                None => !r && final(self)@ == old(self)@,
            },
    {
        match self.scope_of(name) {
            Some(i) => {
                let mut scope = Scope { bindings: Vec::new() };
                std::mem::swap(&mut scope, &mut self.scopes[i]);
                scope.define(name.clone(), value);
                self.scopes.set(i, scope);
                assert(self@ =~= env_assign(old(self)@, name@, view_slot(value))->Some_0);
                true
            },
            None => false,
        }
    }

    /// The value of the variable that `token` names.
    pub fn get(&self, token: &Token) -> (r: RuntimeError<Option<Literal>>)
        ensures
            view_result(r) == env_get(self@, token@),
    {
        match self.lookup(&token.lexeme) {
            Some(v) => Ok(v),
            None => Err(undefined(token)),
        }
    }

    /// Writes to the innermost scope that already has the name.
    pub fn assign(&mut self, token: &Token, value: Option<Literal>) -> (r: RuntimeError<()>)
        ensures
            match env_assign(old(self)@, token@.lexeme, view_slot(value)) {
                Some(e) => r is Ok && final(self)@ == e,
                None => final(self)@ == old(self)@ && r is Err && view_fault(r->Err_0) == (Fault {
                    token: token@,
                    message: undefined_variable(token@.lexeme),
                }),
            },
    {
        if self.update(&token.lexeme, value) {
            Ok(())
        } else {
            Err(undefined(token))
        }
    }
}

/// What the result of an evaluation is in contracts.
pub open spec fn view_result(r: RuntimeError<Option<Literal>>) -> Result<Option<Value>, Fault> {
    match r {
        Ok(v) => Ok(view_slot(v)),
        Err(e) => Err(view_fault(e)),
    }
}

/// The error for a variable that no scope has.
pub fn undefined(token: &Token) -> (e: (Token, String))
    ensures
        view_fault(e) == (Fault { token: token@, message: undefined_variable(token@.lexeme) }),
{
    let mut message = String::from_str("Undefined variable '");
    message.append(token.lexeme.as_str());
    message.append("'.");
    (token.copy(), message)
}

} // verus!
