use lox_core::ast::FunctionDecl;
use lox_core::ast::Stmt;
use lox_core::environment::undefined;
use lox_core::number::Number;
use lox_core::place::current_this;
use lox_core::place::take_items;
use lox_core::place::Place;
use lox_core::render::text_of;
use lox_core::text::arity_text;
use lox_core::text::decimal_text;
use lox_core::text::whole_text;
use lox_core::token::fault;
use lox_core::token::Token;
use lox_core::token::TokenType;
use lox_core::value::copy_slot;
use lox_core::value::Builtin;
use lox_core::value::Callable;
use lox_core::value::Environment;
use lox_core::value::FunctionType;
use lox_core::value::Literal;
use lox_core::value::LoxClass;
use lox_core::value::LoxFunction;
use lox_core::value::LoxInstance;
use lox_core::value::Scope;
use lox_core::value::Signal;
use std::rc::Rc;

fn ident(name: &str) -> Token {
    Token::new(TokenType::Identifier, name, 3)
}

fn n(x: f64) -> Option<Literal> {
    Some(Literal::Number(Number::from_bits(x.to_bits())))
}

fn s(t: &str) -> Option<Literal> {
    Some(Literal::String(t.to_string()))
}

fn shown(v: &Option<Literal>) -> String {
    text_of(v, false)
}

fn method(name: &str, params: Vec<&str>) -> LoxFunction {
    LoxFunction {
        declaration: Rc::new(FunctionDecl {
            name: ident(name),
            params: params.into_iter().map(ident).collect(),
            body: Vec::<Stmt>::new(),
        }),
        closure: Environment::new(),
        f_type: FunctionType::Method,
        is_initializer: false,
    }
}

fn class(name: &str, methods: Vec<LoxFunction>, parent: Option<LoxClass>) -> LoxClass {
    LoxClass::new(name.to_string(), methods, parent.map(Box::new))
}

fn got(environment: &Environment, name: &str) -> Result<String, String> {
    match environment.get(&ident(name)) {
        Ok(v) => Ok(shown(&v)),
        Err((_, message)) => Err(message),
    }
}

#[test]
fn a_token_keeps_its_parts() {
    let t = Token::new(TokenType::Plus, "+", 12);
    assert_eq!(t.type_, TokenType::Plus);
    assert_eq!(t.lexeme, "+");
    assert_eq!(t.line, 12);
    let c = t.copy();
    assert_eq!(c.type_, TokenType::Plus);
    assert_eq!(c.lexeme, "+");
    assert_eq!(c.line, 12);
}

#[test]
fn a_fault_carries_the_token_and_the_message() {
    let (token, message) = fault(&ident("x"), "went wrong");
    assert_eq!(token.lexeme, "x");
    assert_eq!(token.line, 3);
    assert_eq!(message, "went wrong");
    let (token, message) = undefined(&ident("y"));
    assert_eq!(token.lexeme, "y");
    assert_eq!(message, "Undefined variable 'y'.");
}

#[test]
fn decimal_text_of_counts() {
    assert_eq!(decimal_text(0), "0");
    assert_eq!(decimal_text(7), "7");
    assert_eq!(decimal_text(10), "10");
    assert_eq!(decimal_text(109), "109");
    assert_eq!(decimal_text(4294967295), "4294967295");
    assert_eq!(decimal_text(u64::MAX), u64::MAX.to_string());
}

#[test]
fn whole_text_of_signed_numbers() {
    assert_eq!(whole_text(0), "0");
    assert_eq!(whole_text(42), "42");
    assert_eq!(whole_text(-42), "-42");
    assert_eq!(whole_text(i64::MAX), i64::MAX.to_string());
    assert_eq!(whole_text(i64::MIN), i64::MIN.to_string());
    assert_eq!(whole_text(-1), "-1");
}

#[test]
fn arity_text_names_both_counts() {
    assert_eq!(arity_text(2, 0), "Expected 2 arguments but got 0.");
    assert_eq!(arity_text(0, 13), "Expected 0 arguments but got 13.");
}

#[test]
fn a_scope_finds_defines_and_replaces() {
    let mut scope = Scope::new();
    assert_eq!(scope.find(&"a".to_string()), 0);
    scope.define("a".to_string(), n(1.0));
    scope.define("b".to_string(), n(2.0));
    assert_eq!(scope.find(&"a".to_string()), 0);
    assert_eq!(scope.find(&"b".to_string()), 1);
    assert_eq!(scope.find(&"c".to_string()), 2);
    scope.define("a".to_string(), n(3.0));
    assert_eq!(scope.bindings.len(), 2);
    assert_eq!(shown(&scope.bindings[0].value), "3");
    assert_eq!(scope.bindings[1].name, "b");
}

#[test]
fn an_environment_defines_in_the_innermost_scope() {
    let mut environment = Environment::new();
    assert_eq!(environment.scopes.len(), 1);
    environment.define("x".to_string(), n(1.0));
    environment.push_scope();
    environment.define("x".to_string(), n(2.0));
    assert_eq!(got(&environment, "x"), Ok("2".to_string()));
    environment.pop_scope();
    assert_eq!(got(&environment, "x"), Ok("1".to_string()));
    environment.define("x".to_string(), None);
    assert_eq!(got(&environment, "x"), Ok("nil".to_string()));
}

#[test]
fn an_environment_assigns_to_the_innermost_scope_that_has_the_name() {
    let mut environment = Environment::new();
    environment.define("x".to_string(), n(1.0));
    environment.define("y".to_string(), n(10.0));
    environment.push_scope();
    environment.define("y".to_string(), n(20.0));
    assert!(environment.assign(&ident("x"), n(2.0)).is_ok());
    assert!(environment.assign(&ident("y"), n(30.0)).is_ok());
    assert_eq!(got(&environment, "x"), Ok("2".to_string()));
    assert_eq!(got(&environment, "y"), Ok("30".to_string()));
    assert_eq!(environment.scopes[1].bindings.len(), 1);
    environment.pop_scope();
    assert_eq!(got(&environment, "x"), Ok("2".to_string()));
    assert_eq!(got(&environment, "y"), Ok("10".to_string()));
}

#[test]
fn an_environment_refuses_names_it_does_not_have() {
    let mut environment = Environment::new();
    assert_eq!(got(&environment, "x"), Err("Undefined variable 'x'.".to_string()));
    let (token, message) = environment.assign(&ident("x"), n(1.0)).unwrap_err();
    assert_eq!(token.lexeme, "x");
    assert_eq!(message, "Undefined variable 'x'.");
    assert!(environment.lookup(&"x".to_string()).is_none());
    assert!(!environment.update(&"x".to_string(), n(1.0)));
    assert_eq!(environment.scopes[0].bindings.len(), 0);
}

#[test]
fn a_name_bound_to_nil_is_not_absent() {
    let mut environment = Environment::new();
    environment.define("x".to_string(), None);
    assert!(matches!(environment.lookup(&"x".to_string()), Some(None)));
    assert!(environment.update(&"x".to_string(), n(1.0)));
    assert!(matches!(environment.lookup(&"x".to_string()), Some(Some(_))));
}

#[test]
fn an_environment_without_scopes_gets_one_on_define() {
    let mut environment = Environment::new();
    environment.pop_scope();
    environment.pop_scope();
    assert_eq!(environment.scopes.len(), 0);
    assert!(environment.lookup(&"x".to_string()).is_none());
    environment.define("x".to_string(), n(1.0));
    assert_eq!(environment.scopes.len(), 1);
    assert_eq!(got(&environment, "x"), Ok("1".to_string()));
}

#[test]
fn new_with_enclosing_adds_a_scope() {
    let mut outer = Environment::new();
    outer.define("x".to_string(), n(1.0));
    let inner = Environment::new_with_enclosing(outer);
    assert_eq!(inner.scopes.len(), 2);
    assert_eq!(inner.scopes[1].bindings.len(), 0);
    assert_eq!(got(&inner, "x"), Ok("1".to_string()));
}

#[test]
fn a_copy_of_an_environment_is_independent() {
    let mut first = Environment::new();
    first.define("x".to_string(), Some(Literal::Collection(vec![n(1.0)])));
    let second = first.copy();
    first.define("x".to_string(), n(2.0));
    assert_eq!(got(&first, "x"), Ok("2".to_string()));
    assert_eq!(got(&second, "x"), Ok("[1]".to_string()));
}

#[test]
fn a_class_finds_its_methods_and_those_it_inherits() {
    let parent = class("A", vec![method("one", vec![]), method("two", vec!["x"])], None);
    let child = class("B", vec![method("two", vec!["x", "y"]), method("three", vec![])], Some(parent));
    assert_eq!(child.find_method(&"one".to_string()).unwrap().arity(), 0);
    assert_eq!(child.find_method(&"two".to_string()).unwrap().arity(), 2);
    assert_eq!(child.find_method(&"three".to_string()).unwrap().arity(), 0);
    assert!(child.find_method(&"four".to_string()).is_none());
}

#[test]
fn the_last_method_of_a_name_is_found() {
    let c = class("A", vec![method("m", vec![]), method("m", vec!["x"]), method("other", vec![])], None);
    assert_eq!(c.find_method(&"m".to_string()).unwrap().arity(), 1);
}

#[test]
fn a_class_takes_the_arguments_of_its_initializer() {
    assert_eq!(class("A", vec![], None).arity(), 0);
    assert_eq!(class("A", vec![method("m", vec!["x"])], None).arity(), 0);
    assert_eq!(class("A", vec![method("A", vec!["x", "y"])], None).arity(), 2);
    let parent = class("A", vec![method("A", vec!["x"])], None);
    assert_eq!(class("B", vec![], Some(parent)).arity(), 0);
}

#[test]
fn builtins_have_fixed_arities() {
    assert_eq!(Callable::Native(Builtin::Clock).arity(), 0);
    assert_eq!(Callable::Native(Builtin::Len).arity(), 1);
    assert_eq!(Callable::Native(Builtin::Debug).arity(), 1);
    assert_eq!(Callable::User(method("m", vec!["a", "b", "c"])).arity(), 3);
}

#[test]
fn binding_adds_a_scope_with_this() {
    let mut instance = LoxInstance::new(class("A", vec![], None));
    instance.set(&"x".to_string(), n(1.0));
    let mut function = method("m", vec![]);
    function.is_initializer = true;
    function.f_type = FunctionType::Normal;
    let bound = function.bind(&instance);
    assert_eq!(bound.closure.scopes.len(), 2);
    assert_eq!(bound.closure.scopes[1].bindings.len(), 1);
    assert_eq!(got(&bound.closure, "this"), Ok("A { x = 1 }".to_string()));
    assert_eq!(bound.f_type, FunctionType::Method);
    assert!(bound.is_initializer);
    assert_eq!(bound.declaration.name.lexeme, "m");
    assert!(Rc::ptr_eq(&bound.declaration, &function.declaration));
}

#[test]
fn binding_to_an_instance_of_a_subclass_adds_the_superclass() {
    let parent = class("A", vec![], None);
    let instance = LoxInstance::new(class("B", vec![], Some(parent)));
    let bound = method("m", vec![]).bind(&instance);
    assert_eq!(bound.closure.scopes[1].bindings.len(), 2);
    assert_eq!(got(&bound.closure, "B-super"), Ok("<class A>".to_string()));
}

#[test]
fn an_instance_gives_fields_before_methods() {
    let mut instance = LoxInstance::new(class("A", vec![method("m", vec![]), method("f", vec![])], None));
    instance.set(&"f".to_string(), s("field"));
    assert_eq!(shown(&instance.get(&ident("f")).unwrap()), "field");
    match instance.get(&ident("m")) {
        Ok(Some(Literal::Function(Callable::User(f)))) => {
            assert_eq!(f.f_type, FunctionType::Method);
            assert_eq!(got(&f.closure, "this"), Ok("A { f = field }".to_string()));
        },
        _ => panic!("no bound method"),
    }
    let (token, message) = instance.get(&ident("nothing")).unwrap_err();
    assert_eq!(token.lexeme, "nothing");
    assert_eq!(message, "Undefined property 'nothing'.");
}

#[test]
fn an_instance_keeps_its_fields_in_the_order_they_were_set() {
    let mut instance = LoxInstance::new(class("A", vec![], None));
    instance.set(&"b".to_string(), n(1.0));
    instance.set(&"a".to_string(), n(2.0));
    instance.set(&"b".to_string(), n(3.0));
    assert_eq!(shown(&Some(Literal::Instance(instance.copy()))), "A { b = 3, a = 2 }");
    assert_eq!(text_of(&Some(Literal::Instance(instance)), true), "A {\n  b = 3\n  a = 2\n}");
}

#[test]
fn text_of_each_kind_of_value() {
    assert_eq!(shown(&None), "nil");
    assert_eq!(shown(&Some(Literal::Boolean(true))), "true");
    assert_eq!(shown(&Some(Literal::Boolean(false))), "false");
    assert_eq!(shown(&Some(Literal::StrongBoolean(true))), "true");
    assert_eq!(shown(&n(-1.25)), "-1.25");
    assert_eq!(shown(&Some(Literal::StrongNumber(Number::from_bits(8.0f64.to_bits())))), "8");
    assert_eq!(shown(&s("text")), "text");
    assert_eq!(shown(&Some(Literal::StrongString("strong".to_string()))), "strong");
    assert_eq!(shown(&Some(Literal::Collection(vec![]))), "[]");
    assert_eq!(shown(&Some(Literal::Collection(vec![n(1.0)]))), "[1]");
    assert_eq!(
        shown(&Some(Literal::Collection(vec![n(1.0), None, Some(Literal::Collection(vec![s("a"), s("b")]))]))),
        "[1, nil, [a, b]]"
    );
    assert_eq!(shown(&Some(Literal::Function(Callable::User(method("go", vec![]))))), "<fn go>");
    assert_eq!(shown(&Some(Literal::Function(Callable::Native(Builtin::Clock)))), "<native fn clock>");
    assert_eq!(shown(&Some(Literal::Function(Callable::Native(Builtin::Debug)))), "<native fn debug>");
    assert_eq!(shown(&Some(Literal::Class(class("A", vec![], None)))), "<class A>");
    assert_eq!(shown(&Some(Literal::Instance(LoxInstance::new(class("A", vec![], None))))), "A {}");
    assert_eq!(text_of(&Some(Literal::Instance(LoxInstance::new(class("A", vec![], None)))), true), "A {\n}");
    assert_eq!(shown(&Some(Literal::Keyword(Signal::Break))), "break");
    assert_eq!(shown(&Some(Literal::Keyword(Signal::Continue))), "continue");
    assert_eq!(shown(&Some(Literal::Return(Box::new(n(4.0))))), "4");
    assert_eq!(shown(&Some(Literal::Return(Box::new(None)))), "nil");
}

#[test]
fn a_collection_prints_the_same_with_and_without_a_line_end() {
    let v = Some(Literal::Collection(vec![n(1.0), n(2.0)]));
    assert_eq!(text_of(&v, true), "[1, 2]");
    assert_eq!(text_of(&v, false), "[1, 2]");
}

#[test]
fn a_copy_of_a_value_shows_the_same() {
    let mut instance = LoxInstance::new(class("A", vec![method("m", vec![])], None));
    instance.set(&"items".to_string(), Some(Literal::Collection(vec![n(1.0), s("x"), None])));
    let value = Some(Literal::Collection(vec![
        Some(Literal::Instance(instance)),
        Some(Literal::Function(Callable::Native(Builtin::Len))),
        Some(Literal::StrongString("s".to_string())),
    ]));
    let copy = copy_slot(&value);
    assert_eq!(shown(&copy), shown(&value));
    assert_eq!(shown(&copy), "[A { items = [1, x, nil] }, <native fn len>, s]");
}

#[test]
fn items_are_taken_from_collections_and_strings() {
    match take_items(Some(Literal::Collection(vec![n(1.0), n(2.0)]))) {
        Ok((items, text)) => {
            assert_eq!(items.len(), 2);
            assert!(!text);
        },
        Err(_) => panic!("a collection has items"),
    }
    match take_items(s("ab")) {
        Ok((items, text)) => {
            assert_eq!(items.len(), 2);
            assert_eq!(shown(&items[1]), "b");
            assert!(text);
        },
        Err(_) => panic!("a string has items"),
    }
    assert!(matches!(take_items(n(1.0)), Err(Some(Literal::Number(_)))));
    assert!(matches!(take_items(None), Err(None)));
}

#[test]
fn this_is_read_from_the_environment() {
    let mut environment = Environment::new();
    let keyword = Token::new(TokenType::This, "this", 9);
    let (token, message) = current_this(&environment, &keyword).unwrap_err();
    assert_eq!(token.line, 9);
    assert_eq!(message, "Undefined variable 'this'.");
    environment.define("this".to_string(), n(1.0));
    assert_eq!(shown(&current_this(&environment, &keyword).unwrap()), "1");
}

#[test]
fn a_variable_place_reads_and_writes_the_variable() {
    let mut environment = Environment::new();
    environment.define("x".to_string(), n(1.0));
    let name = ident("x");
    let place = Place::Var(&name);
    assert_eq!(shown(&place.read(&environment).unwrap()), "1");
    assert!(place.write(&mut environment, n(2.0)).is_ok());
    assert_eq!(got(&environment, "x"), Ok("2".to_string()));
    let missing = ident("y");
    let place = Place::Var(&missing);
    assert_eq!(place.read(&environment).unwrap_err().1, "Undefined variable 'y'.");
    assert_eq!(place.write(&mut environment, n(2.0)).unwrap_err().1, "Undefined variable 'y'.");
}

#[test]
fn a_slot_place_reads_and_writes_through_the_variable() {
    let mut environment = Environment::new();
    environment.define(
        "a".to_string(),
        Some(Literal::Collection(vec![Some(Literal::Collection(vec![n(1.0), n(2.0)])), n(3.0)])),
    );
    let name = ident("a");
    let bracket = Token::new(TokenType::LeftBracket, "[", 1);
    let at = |x: f64| Number::from_bits(x.to_bits());
    let inner = Place::Index(Box::new(Place::Index(Box::new(Place::Var(&name)), &bracket, at(0.0))), &bracket, at(-1.0));
    assert_eq!(shown(&inner.read(&environment).unwrap()), "2");
    assert!(inner.write(&mut environment, s("z")).is_ok());
    assert_eq!(got(&environment, "a"), Ok("[[1, z], 3]".to_string()));
    let wrong = Place::Index(Box::new(Place::Index(Box::new(Place::Var(&name)), &bracket, at(1.0))), &bracket, at(0.0));
    assert_eq!(wrong.read(&environment).unwrap_err().1, "Only list types can be indexed.");
    assert_eq!(wrong.write(&mut environment, n(0.0)).unwrap_err().1, "Only list types can be indexed.");
    assert_eq!(got(&environment, "a"), Ok("[[1, z], 3]".to_string()));
}

#[test]
fn a_slot_place_of_a_string_rewrites_the_string() {
    let mut environment = Environment::new();
    environment.define("s".to_string(), s("abc"));
    let name = ident("s");
    let bracket = Token::new(TokenType::LeftBracket, "[", 1);
    let place = Place::Index(Box::new(Place::Var(&name)), &bracket, Number::from_bits(4.0f64.to_bits()));
    assert_eq!(shown(&place.read(&environment).unwrap()), "b");
    assert!(place.write(&mut environment, s("B")).is_ok());
    assert_eq!(got(&environment, "s"), Ok("aBc".to_string()));
}

#[test]
fn a_slot_place_of_an_empty_collection_cannot_be_written() {
    let mut environment = Environment::new();
    environment.define("a".to_string(), Some(Literal::Collection(vec![])));
    let name = ident("a");
    let bracket = Token::new(TokenType::LeftBracket, "[", 1);
    let place = Place::Index(Box::new(Place::Var(&name)), &bracket, Number::from_bits(0));
    assert!(place.read(&environment).unwrap().is_none());
    let (token, message) = place.write(&mut environment, n(1.0)).unwrap_err();
    assert_eq!(token.lexeme, "[");
    assert_eq!(message, "Index out of range.");
}

#[test]
fn a_field_place_reads_and_writes_through_the_variable() {
    let mut environment = Environment::new();
    let mut instance = LoxInstance::new(class("A", vec![], None));
    instance.set(&"x".to_string(), n(1.0));
    environment.define("o".to_string(), Some(Literal::Instance(instance)));
    environment.define("n".to_string(), n(1.0));
    let name = ident("o");
    let field = ident("x");
    let place = Place::Field(Box::new(Place::Var(&name)), &field);
    assert_eq!(shown(&place.read(&environment).unwrap()), "1");
    assert!(place.write(&mut environment, n(5.0)).is_ok());
    assert_eq!(got(&environment, "o"), Ok("A { x = 5 }".to_string()));
    let fresh = ident("y");
    let place = Place::Field(Box::new(Place::Var(&name)), &fresh);
    assert_eq!(place.read(&environment).unwrap_err().1, "Undefined property 'y'.");
    assert!(place.write(&mut environment, n(6.0)).is_ok());
    assert_eq!(got(&environment, "o"), Ok("A { x = 5, y = 6 }".to_string()));
    let number = ident("n");
    let place = Place::Field(Box::new(Place::Var(&number)), &field);
    assert_eq!(place.read(&environment).unwrap_err().1, "Only instances have properties.");
    assert_eq!(place.write(&mut environment, n(6.0)).unwrap_err().1, "Only instances have fields.");
}

#[test]
fn a_this_place_reads_and_writes_this() {
    let mut environment = Environment::new();
    let keyword = Token::new(TokenType::This, "this", 1);
    let place = Place::This(&keyword);
    assert_eq!(place.write(&mut environment, n(1.0)).unwrap_err().1, "Undefined variable 'this'.");
    environment.define("this".to_string(), n(1.0));
    assert!(place.write(&mut environment, n(2.0)).is_ok());
    assert_eq!(shown(&place.read(&environment).unwrap()), "2");
}

#[test]
fn a_value_that_no_storage_holds_is_read_and_a_write_is_dropped() {
    let mut environment = Environment::new();
    let place = Place::Temp(n(7.0));
    assert_eq!(shown(&place.read(&environment).unwrap()), "7");
    assert!(place.write(&mut environment, n(8.0)).is_ok());
    assert_eq!(shown(&place.read(&environment).unwrap()), "7");
    assert_eq!(environment.scopes[0].bindings.len(), 0);
    let bracket = Token::new(TokenType::LeftBracket, "[", 1);
    let slot = Place::Index(
        Box::new(Place::Temp(Some(Literal::Collection(vec![n(1.0), n(2.0)])))),
        &bracket,
        Number::from_bits(1.0f64.to_bits()),
    );
    assert_eq!(shown(&slot.read(&environment).unwrap()), "2");
    assert!(slot.write(&mut environment, n(9.0)).is_ok());
}
