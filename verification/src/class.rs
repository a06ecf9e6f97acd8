//! Classes and instances: method lookup, binding of `this`, fields.

use crate::environment::find_binding;
use crate::environment::find_name;
use crate::environment::scope_define;
use crate::environment::view_result;
use crate::token::Fault;
use crate::token::RuntimeError;
use crate::token::Token;
use crate::token::TokenModel;
use crate::value::copy_slot;
use crate::value::view_slot;
use crate::value::BindingValue;
use crate::value::Builtin;
use crate::value::Callable;
use crate::value::CallableValue;
use crate::value::ClassValue;
use crate::value::FunctionType;
use crate::value::FunctionValue;
use crate::value::InstanceValue;
use crate::value::Literal;
use crate::value::LoxClass;
use crate::value::LoxFunction;
use crate::value::LoxInstance;
use crate::value::Scope;
use crate::value::Value;
use vstd::prelude::*;

verus! {

/// The name a function was declared under.
pub open spec fn function_name(f: FunctionValue) -> Seq<char> {
    f.declaration.name@.lexeme
}

/// The last of the first `upto` methods that is named `name`.
pub open spec fn find_among(methods: Seq<FunctionValue>, name: Seq<char>, upto: int) -> Option<
    FunctionValue,
>
    decreases upto,
{
    if upto <= 0 || upto > methods.len() {
        None
    } else if function_name(methods[upto - 1]) == name {
        Some(methods[upto - 1])
    } else {
        find_among(methods, name, upto - 1)
    }
}

/// The method named `name` of a class: its own, where a later declaration
/// hides an earlier one, else that of the class it extends.
pub open spec fn find_method(class: ClassValue, name: Seq<char>) -> Option<FunctionValue>
    decreases class,
{
    match find_among(class.methods, name, class.methods.len() as int) {
        Some(f) => Some(f),
        None => match class.super_class {
            Some(s) => find_method(*s, name),
            None => None,
        },
    }
}

/// The key under which a class's superclass is bound.
pub open spec fn super_key(class_name: Seq<char>) -> Seq<char> {
    class_name + "-super"@
}

/// The scope that binding adds: `this`, and the superclass where there is one.
pub open spec fn this_scope(instance: InstanceValue) -> Seq<BindingValue> {
    let this = BindingValue { name: "this"@, value: Some(Value::Instance(instance)) };
    match instance.class.super_class {
        Some(s) => seq![
            this,
            BindingValue { name: super_key(instance.class.name), value: Some(Value::Class(*s)) },
        ],
        None => seq![this],
    }
}

/// A method bound to an instance: the same function, as a method, over its
/// environment extended by the scope that holds `this`.
pub open spec fn bound(f: FunctionValue, instance: InstanceValue) -> FunctionValue {
    FunctionValue {
        declaration: f.declaration,
        closure: f.closure.push(this_scope(instance)),
        f_type: FunctionType::Method,
        is_initializer: f.is_initializer,
    }
}

/// The message for a name that is neither a field nor a method.
pub open spec fn undefined_property(name: Seq<char>) -> Seq<char> {
    "Undefined property '"@ + name + "'."@
}

/// A property of an instance: the field of that name, else the method of
/// that name bound to the instance, else an error.
pub open spec fn instance_get(instance: InstanceValue, token: TokenModel) -> Result<Option<Value>, Fault> {
    let i = find_binding(instance.fields, token.lexeme, 0);
    if i < instance.fields.len() {
        Ok(instance.fields[i].value)
    } else {
        match find_method(instance.class, token.lexeme) {
            Some(m) => Ok(Some(Value::Function(CallableValue::User(bound(m, instance))))),
            None => Err(Fault { token, message: undefined_property(token.lexeme) }),
        }
    }
}

/// The instance with the field `name` defined or replaced.
pub open spec fn instance_set(instance: InstanceValue, name: Seq<char>, value: Option<Value>) -> InstanceValue {
    InstanceValue { class: instance.class, fields: scope_define(instance.fields, name, value) }
}

/// A fresh instance of a class: no fields.
pub open spec fn instance_of(class: ClassValue) -> InstanceValue {
    InstanceValue { class, fields: Seq::empty() }
}

/// The initializer of a class: the method that has the class's name.
pub open spec fn initializer(class: ClassValue) -> Option<FunctionValue> {
    find_method(class, class.name)
}

/// How many arguments a class takes: as many as its initializer, else none.
pub open spec fn class_arity(class: ClassValue) -> nat {
    match initializer(class) {
        Some(f) => f.declaration.params@.len(),
        None => 0,
    }
}

/// How many arguments a function takes.
pub open spec fn callable_arity(c: CallableValue) -> nat {
    match c {
        CallableValue::User(f) => f.declaration.params@.len(),
        CallableValue::Native(Builtin::Clock) => 0,
        CallableValue::Native(_) => 1,
    }
}

impl LoxFunction {
    /// The number of parameters.
    pub fn arity(&self) -> (r: usize)
        ensures
            r == self@.declaration.params@.len(),
    {
        self.declaration.params.len()
    }

    /// The function bound to `instance`.
    pub fn bind(&self, instance: &LoxInstance) -> (r: LoxFunction)
        ensures
            r@ == bound(self@, instance@),
    {
        let mut scope = Scope::new();
        scope.define(String::from_str("this"), Some(Literal::Instance(instance.copy())));
        proof {
            reveal_with_fuel(find_binding, 3);
        }
        assert(scope@ =~= seq![
            BindingValue { name: "this"@, value: Some(Value::Instance(instance@)) },
        ]);
        match &instance.class.super_class {
            Some(s) => {
                let mut key = instance.class.name.clone();
                key.append("-super");
                proof {
                    reveal_strlit("this");
                    reveal_strlit("-super");
                    assert(key@ != "this"@) by {
                        assert(key@.len() >= 6);
                    }
                }
                scope.define(key, Some(Literal::Class((**s).copy())));
            },
            None => {},
        }
        assert(scope@ =~= this_scope(instance@));
        let mut closure = self.closure.copy();
        closure.scopes.push(scope);
        assert(closure@ =~= self@.closure.push(this_scope(instance@)));
        LoxFunction {
            declaration: crate::value::share(&self.declaration),
            closure,
            f_type: FunctionType::Method,
            is_initializer: self.is_initializer,
        }
    }
}

impl Callable {
    /// The number of arguments the function takes.
    pub fn arity(&self) -> (r: usize)
        ensures
            r == callable_arity(self@),
    {
        match self {
            Callable::User(f) => f.arity(),
            Callable::Native(Builtin::Clock) => 0,
            Callable::Native(_) => 1,
        }
    }
}

impl LoxClass {
    /// A class of the given parts.
    pub fn new(name: String, methods: Vec<LoxFunction>, super_class: Option<Box<LoxClass>>) -> (r: LoxClass)
        ensures
            r.name == name,
            r.methods == methods,
            r.super_class == super_class,
    {
        LoxClass { name, methods, super_class }
    }

    /// The method named `name`, searched in the class and then up the chain
    /// of superclasses.
    pub fn find_method(&self, name: &String) -> (r: Option<&LoxFunction>)
        ensures
            match r {
                Some(f) => find_method(self@, name@) == Some(f@),
                None => find_method(self@, name@) is None,
            },
        decreases self,
    {
        let mut i: usize = self.methods.len();
        let ghost methods = crate::value::view_methods(self.methods);
        assert(self@.methods == methods);
        while i > 0
            invariant
                i <= self.methods.len(),
                methods == crate::value::view_methods(self.methods),
                find_among(methods, name@, methods.len() as int) == find_among(
                    methods,
                    name@,
                    i as int,
                ),
            decreases i,
        {
            i -= 1;
            if self.methods[i].declaration.name.lexeme == *name {
                return Some(&self.methods[i]);
            }
        }
        match &self.super_class {
            Some(s) => s.find_method(name),
            None => None,
        }
    }

    /// The number of arguments that a call of the class takes.
    pub fn arity(&self) -> (r: usize)
        ensures
            r == class_arity(self@),
    {
        match self.find_method(&self.name) {
            Some(f) => f.arity(),
            None => 0,
        }
    }
}

impl LoxInstance {
    /// A fresh instance of `class`.
    pub fn new(class: LoxClass) -> (r: LoxInstance)
        ensures
            r@ == instance_of(class@),
    {
        let r = LoxInstance { class, fields: Vec::new() };
        assert(r@.fields =~= Seq::empty());
        r
    }

    /// The property that `token` names.
    pub fn get(&self, token: &Token) -> (r: RuntimeError<Option<Literal>>)
        ensures
            view_result(r) == instance_get(self@, token@),
    {
        let i: usize = find_name(&self.fields, &token.lexeme);
        assert(self.class@ == self@.class);
        if i < self.fields.len() {
            Ok(copy_slot(&self.fields[i].value))
        } else {
            match self.class.find_method(&token.lexeme) {
                Some(m) => {
                    let f = m.bind(self);
                    proof {
                        reveal_with_fuel(view_slot, 4);
                    }
                    Ok(Some(Literal::Function(Callable::User(f))))
                },
                None => {
                    let mut message = String::from_str("Undefined property '");
                    message.append(token.lexeme.as_str());
                    message.append("'.");
                    Err((token.copy(), message))
                },
            }
        }
    }

    /// Defines or replaces the field `name`.
    pub fn set(&mut self, name: &String, value: Option<Literal>)
        ensures
            final(self)@ == instance_set(old(self)@, name@, view_slot(value)),
    {
        let mut fields = Scope { bindings: Vec::new() };
        std::mem::swap(&mut fields.bindings, &mut self.fields);
        assert(fields@ == old(self)@.fields);
        fields.define(name.clone(), value);
        std::mem::swap(&mut fields.bindings, &mut self.fields);
    }
}

} // verus!
