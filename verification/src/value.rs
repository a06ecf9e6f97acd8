//! Runtime values, and what each of them is in contracts.

use crate::ast::FunctionDecl;
use crate::number::Number;
use std::rc::Rc;
use vstd::prelude::*;

verus! {

/// How a user function came to be.
#[derive(Clone, Copy, Debug, PartialEq, Eq, Structural)]
pub enum FunctionType {
    Normal,
    Method,
    Anon,
}

/// The functions that the host provides.
#[derive(Clone, Copy, Debug, PartialEq, Eq, Structural)]
pub enum Builtin {
    Clock,
    Len,
    Debug,
}

/// The two loop signals that travel in the value channel.
#[derive(Clone, Copy, Debug, PartialEq, Eq, Structural)]
pub enum Signal {
    Break,
    Continue,
}

/// A runtime value. Nil is the `None` of an `Option<Literal>`.
#[derive(Debug)]
pub enum Literal {
    Number(Number),
    String(String),
    Boolean(bool),
    StrongNumber(Number),
    StrongString(String),
    StrongBoolean(bool),
    Collection(Vec<Option<Literal>>),
    Function(Callable),
    Class(LoxClass),
    Instance(LoxInstance),
    Keyword(Signal),
    Return(Box<Option<Literal>>),
}

/// Something that can be called and is not a class.
#[derive(Debug)]
pub enum Callable {
    User(LoxFunction),
    Native(Builtin),
}

/// A user function with the environment it was made in.
#[derive(Debug)]
pub struct LoxFunction {
    pub declaration: Rc<FunctionDecl>,
    pub closure: Environment,
    pub f_type: FunctionType,
    pub is_initializer: bool,
}

/// A class: its name, its methods in the order they were declared, and the
/// class it extends.
#[derive(Debug)]
pub struct LoxClass {
    pub name: String,
    pub methods: Vec<LoxFunction>,
    pub super_class: Option<Box<LoxClass>>,
}

/// An instance: its class and its fields in the order they were first set.
#[derive(Debug)]
pub struct LoxInstance {
    pub class: LoxClass,
    pub fields: Vec<Binding>,
}

/// A name with what it is bound to.
#[derive(Debug)]
pub struct Binding {
    pub name: String,
    pub value: Option<Literal>,
}

/// One level of names.
#[derive(Debug)]
pub struct Scope {
    pub bindings: Vec<Binding>,
}

/// Nested scopes, the innermost last.
#[derive(Debug)]
pub struct Environment {
    pub scopes: Vec<Scope>,
}

/// What a value is in contracts. Nil is the `None` of an `Option<Value>`.
pub ghost enum Value {
    Number(Number),
    String(Seq<char>),
    Boolean(bool),
    StrongNumber(Number),
    StrongString(Seq<char>),
    StrongBoolean(bool),
    Collection(Seq<Option<Value>>),
    Function(CallableValue),
    Class(ClassValue),
    Instance(InstanceValue),
    Keyword(Signal),
    Return(Box<Option<Value>>),
}

/// What a callable is in contracts.
pub ghost enum CallableValue {
    User(FunctionValue),
    Native(Builtin),
}

/// What a user function is in contracts: its declaration and the
/// environment it was made in.
pub ghost struct FunctionValue {
    pub declaration: FunctionDecl,
    pub closure: Seq<Seq<BindingValue>>,
    pub f_type: FunctionType,
    pub is_initializer: bool,
}

/// What a class is in contracts.
pub ghost struct ClassValue {
    pub name: Seq<char>,
    pub methods: Seq<FunctionValue>,
    pub super_class: Option<Box<ClassValue>>,
}

/// What an instance is in contracts.
pub ghost struct InstanceValue {
    pub class: ClassValue,
    pub fields: Seq<BindingValue>,
}

/// What a binding is in contracts.
pub ghost struct BindingValue {
    pub name: Seq<char>,
    pub value: Option<Value>,
}

/// One level of names in contracts.
pub type ScopeModel = Seq<BindingValue>;

/// Nested scopes in contracts, the innermost last.
pub type EnvModel = Seq<Seq<BindingValue>>;

/// What a value is in contracts.
pub open spec fn view_literal(l: Literal) -> Value
    decreases l,
{
    match l {
        Literal::Number(n) => Value::Number(n),
        Literal::String(s) => Value::String(s@),
        Literal::Boolean(b) => Value::Boolean(b),
        Literal::StrongNumber(n) => Value::StrongNumber(n),
        Literal::StrongString(s) => Value::StrongString(s@),
        Literal::StrongBoolean(b) => Value::StrongBoolean(b),
        Literal::Collection(v) => Value::Collection(view_items(v)),
        Literal::Function(c) => Value::Function(view_callable(c)),
        Literal::Class(c) => Value::Class(view_class(c)),
        Literal::Instance(i) => Value::Instance(view_instance(i)),
        Literal::Keyword(s) => Value::Keyword(s),
        Literal::Return(b) => Value::Return(Box::new(view_slot(*b))),
    }
}

/// What a value or nil is in contracts.
pub open spec fn view_slot(o: Option<Literal>) -> Option<Value>
    decreases o,
{
    match o {
        Some(l) => Some(view_literal(l)),
        None => None,
    }
}

/// What the items of a collection are in contracts.
pub open spec fn view_items(v: Vec<Option<Literal>>) -> Seq<Option<Value>>
    decreases v,
{
    Seq::new(
        v@.len(),
        |i: int|
            if 0 <= i < v@.len() {
                view_slot(v@[i])
            } else {
                None
            },
    )
}

/// What a callable is in contracts.
pub open spec fn view_callable(c: Callable) -> CallableValue
    decreases c,
{
    match c {
        Callable::User(f) => CallableValue::User(view_function(f)),
        Callable::Native(b) => CallableValue::Native(b),
    }
}

/// What a user function is in contracts.
pub open spec fn view_function(f: LoxFunction) -> FunctionValue
    decreases f,
{
    FunctionValue {
        declaration: *f.declaration,
        closure: view_env(f.closure),
        f_type: f.f_type,
        is_initializer: f.is_initializer,
    }
}

/// What the methods of a class are in contracts.
pub open spec fn view_methods(v: Vec<LoxFunction>) -> Seq<FunctionValue>
    decreases v,
{
    Seq::new(
        v@.len(),
        |i: int|
            if 0 <= i < v@.len() {
                view_function(v@[i])
            } else {
                arbitrary()
            },
    )
}

/// What a class is in contracts.
pub open spec fn view_class(c: LoxClass) -> ClassValue
    decreases c,
{
    ClassValue {
        name: c.name@,
        methods: view_methods(c.methods),
        super_class: match c.super_class {
            Some(b) => Some(Box::new(view_class(*b))),
            None => None,
        },
    }
}

/// What an instance is in contracts.
pub open spec fn view_instance(i: LoxInstance) -> InstanceValue
    decreases i,
{
    InstanceValue { class: view_class(i.class), fields: view_bindings(i.fields) }
}

/// What a binding is in contracts.
pub open spec fn view_binding(b: Binding) -> BindingValue
    decreases b,
{
    BindingValue { name: b.name@, value: view_slot(b.value) }
}

/// What a list of bindings is in contracts.
pub open spec fn view_bindings(v: Vec<Binding>) -> Seq<BindingValue>
    decreases v,
{
    Seq::new(
        v@.len(),
        |i: int|
            if 0 <= i < v@.len() {
                view_binding(v@[i])
            } else {
                arbitrary()
            },
    )
}

/// What a scope is in contracts.
pub open spec fn view_scope(s: Scope) -> Seq<BindingValue>
    decreases s,
{
    view_bindings(s.bindings)
}

/// What a list of scopes is in contracts.
pub open spec fn view_scopes(v: Vec<Scope>) -> Seq<Seq<BindingValue>>
    decreases v,
{
    Seq::new(
        v@.len(),
        |i: int|
            if 0 <= i < v@.len() {
                view_scope(v@[i])
            } else {
                arbitrary()
            },
    )
}

/// What an environment is in contracts.
pub open spec fn view_env(e: Environment) -> Seq<Seq<BindingValue>>
    decreases e,
{
    view_scopes(e.scopes)
}

impl View for Literal {
    type V = Value;

    open spec fn view(&self) -> Value {
        view_literal(*self)
    }
}

impl View for Callable {
    type V = CallableValue;

    open spec fn view(&self) -> CallableValue {
        view_callable(*self)
    }
}

impl View for LoxFunction {
    type V = FunctionValue;

    open spec fn view(&self) -> FunctionValue {
        view_function(*self)
    }
}

impl View for LoxClass {
    type V = ClassValue;

    open spec fn view(&self) -> ClassValue {
        view_class(*self)
    }
}

impl View for LoxInstance {
    type V = InstanceValue;

    open spec fn view(&self) -> InstanceValue {
        view_instance(*self)
    }
}

impl View for Binding {
    type V = BindingValue;

    open spec fn view(&self) -> BindingValue {
        view_binding(*self)
    }
}

impl View for Scope {
    type V = Seq<BindingValue>;

    open spec fn view(&self) -> Seq<BindingValue> {
        view_scope(*self)
    }
}

impl View for Environment {
    type V = Seq<Seq<BindingValue>>;

    open spec fn view(&self) -> Seq<Seq<BindingValue>> {
        view_env(*self)
    }
}

/// `Rc::clone`: another handle on the same declaration.
#[verifier::external_body]
pub(crate) fn share(d: &Rc<FunctionDecl>) -> (r: Rc<FunctionDecl>)
    ensures
        r == d,
{
    Rc::clone(d)
}

/// A deep copy of a value or nil.
pub fn copy_slot(o: &Option<Literal>) -> (r: Option<Literal>)
    ensures
        view_slot(r) == view_slot(*o),
    decreases o,
{
    match o {
        Some(l) => Some(l.copy()),
        None => None,
    }
}

/// A deep copy of the items of a collection.
pub fn copy_items(v: &Vec<Option<Literal>>) -> (r: Vec<Option<Literal>>)
    ensures
        view_items(r) == view_items(*v),
    decreases v,
{
    let mut out: Vec<Option<Literal>> = Vec::new();
    let mut i: usize = 0;
    while i < v.len()
        invariant
            i <= v.len(),
            out@.len() == i,
            forall|j: int| 0 <= j < i ==> view_slot(out@[j]) == view_slot(v@[j]),
        decreases v.len() - i,
    {
        let item = copy_slot(&v[i]);
        out.push(item);
        i += 1;
    }
    assert(view_items(out) =~= view_items(*v));
    out
}

/// A deep copy of the methods of a class.
pub fn copy_methods(v: &Vec<LoxFunction>) -> (r: Vec<LoxFunction>)
    ensures
        view_methods(r) == view_methods(*v),
    decreases v,
{
    let mut out: Vec<LoxFunction> = Vec::new();
    let mut i: usize = 0;
    while i < v.len()
        invariant
            i <= v.len(),
            out@.len() == i,
            forall|j: int| 0 <= j < i ==> view_function(out@[j]) == view_function(v@[j]),
        decreases v.len() - i,
    {
        let item = v[i].copy();
        out.push(item);
        i += 1;
    }
    assert(view_methods(out) =~= view_methods(*v));
    out
}

/// A deep copy of a list of bindings.
pub fn copy_bindings(v: &Vec<Binding>) -> (r: Vec<Binding>)
    ensures
        view_bindings(r) == view_bindings(*v),
    decreases v,
{
    let mut out: Vec<Binding> = Vec::new();
    let mut i: usize = 0;
    while i < v.len()
        invariant
            i <= v.len(),
            out@.len() == i,
            forall|j: int| 0 <= j < i ==> view_binding(out@[j]) == view_binding(v@[j]),
        decreases v.len() - i,
    {
        let item = v[i].copy();
        out.push(item);
        i += 1;
    }
    assert(view_bindings(out) =~= view_bindings(*v));
    out
}

/// A deep copy of a list of scopes.
pub fn copy_scopes(v: &Vec<Scope>) -> (r: Vec<Scope>)
    ensures
        view_scopes(r) == view_scopes(*v),
    decreases v,
{
    let mut out: Vec<Scope> = Vec::new();
    let mut i: usize = 0;
    while i < v.len()
        invariant
            i <= v.len(),
            out@.len() == i,
            forall|j: int| 0 <= j < i ==> view_scope(out@[j]) == view_scope(v@[j]),
        decreases v.len() - i,
    {
        let item = v[i].copy();
        out.push(item);
        i += 1;
    }
    assert(view_scopes(out) =~= view_scopes(*v));
    out
}

impl Literal {
    /// A deep copy: values have value semantics.
    pub fn copy(&self) -> (r: Literal)
        ensures
            r@ == self@,
        decreases self,
    {
        match self {
            Literal::Number(n) => Literal::Number(*n),
            Literal::String(s) => Literal::String(s.clone()),
            Literal::Boolean(b) => Literal::Boolean(*b),
            Literal::StrongNumber(n) => Literal::StrongNumber(*n),
            Literal::StrongString(s) => Literal::StrongString(s.clone()),
            Literal::StrongBoolean(b) => Literal::StrongBoolean(*b),
            Literal::Collection(v) => Literal::Collection(copy_items(v)),
            Literal::Function(c) => Literal::Function(c.copy()),
            Literal::Class(c) => Literal::Class(c.copy()),
            Literal::Instance(i) => Literal::Instance(i.copy()),
            Literal::Keyword(s) => Literal::Keyword(*s),
            Literal::Return(b) => Literal::Return(Box::new(copy_slot(&**b))),
        }
    }
}

impl Callable {
    /// A deep copy.
    pub fn copy(&self) -> (r: Callable)
        ensures
            r@ == self@,
        decreases self,
    {
        match self {
            Callable::User(f) => Callable::User(f.copy()),
            Callable::Native(b) => Callable::Native(*b),
        }
    }
}

impl LoxFunction {
    /// A deep copy: the declaration is shared, the environment is copied.
    pub fn copy(&self) -> (r: LoxFunction)
        ensures
            r@ == self@,
        decreases self,
    {
        LoxFunction {
            declaration: share(&self.declaration),
            closure: self.closure.copy(),
            f_type: self.f_type,
            is_initializer: self.is_initializer,
        }
    }
}

impl LoxClass {
    /// A deep copy.
    pub fn copy(&self) -> (r: LoxClass)
        ensures
            r@ == self@,
        decreases self,
    {
        let super_class = match &self.super_class {
            Some(b) => Some(Box::new((**b).copy())),
            None => None,
        };
        LoxClass { name: self.name.clone(), methods: copy_methods(&self.methods), super_class }
    }
}

impl LoxInstance {
    /// A deep copy.
    pub fn copy(&self) -> (r: LoxInstance)
        ensures
            r@ == self@,
        decreases self,
    {
        LoxInstance { class: self.class.copy(), fields: copy_bindings(&self.fields) }
    }
}

impl Binding {
    /// A deep copy.
    pub fn copy(&self) -> (r: Binding)
        ensures
            r@ == self@,
        decreases self,
    {
        Binding { name: self.name.clone(), value: copy_slot(&self.value) }
    }
}

impl Scope {
    /// A deep copy.
    pub fn copy(&self) -> (r: Scope)
        ensures
            r@ == self@,
        decreases self,
    {
        Scope { bindings: copy_bindings(&self.bindings) }
    }
}

impl Environment {
    /// A snapshot: closures capture their environment by value.
    pub fn copy(&self) -> (r: Environment)
        ensures
            r@ == self@,
        decreases self,
    {
        Environment { scopes: copy_scopes(&self.scopes) }
    }
}

} // verus!
