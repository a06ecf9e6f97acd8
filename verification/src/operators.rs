//! What the operators of the language do to values.

use crate::number::Number;
use crate::token::TokenType;
use crate::value::copy_slot;
use crate::value::view_items;
use crate::value::view_slot;
use crate::value::Literal;
use crate::value::Value;
use vstd::arithmetic::div_mod::lemma_fundamental_div_mod;
use vstd::arithmetic::div_mod::lemma_fundamental_div_mod_converse;
use vstd::prelude::*;

verus! {

/// `==`: true for two nils, the payloads' equality for two booleans, two
/// numbers or two strings, nil ("not comparable") for any other two values
/// that are not nil, and false for nil beside a value.
pub open spec fn equal_values(a: Option<Value>, b: Option<Value>) -> Option<Value> {
    match (a, b) {
        (None, None) => Some(Value::Boolean(true)),
        (Some(Value::Boolean(x)), Some(Value::Boolean(y))) => Some(Value::Boolean(x == y)),
        (Some(Value::Number(x)), Some(Value::Number(y))) => Some(Value::Boolean(x.same(y))),
        (Some(Value::String(x)), Some(Value::String(y))) => Some(Value::Boolean(x == y)),
        (Some(_), Some(_)) => None,
        _ => Some(Value::Boolean(false)),
    }
}

/// `!=`: the negation of `==` where that is a boolean, nil where it is nil.
pub open spec fn unequal_values(a: Option<Value>, b: Option<Value>) -> Option<Value> {
    match equal_values(a, b) {
        Some(Value::Boolean(e)) => Some(Value::Boolean(!e)),
        other => other,
    }
}

/// Nil and `false` are false; every other value is true.
pub open spec fn truthy(v: Option<Value>) -> bool {
    match v {
        None => false,
        Some(Value::Boolean(b)) => b,
        Some(_) => true,
    }
}

/// `!`: a collection reversed; for any other value its truthiness negated,
/// where only nil and the two booleans count (every other value gives false).
pub open spec fn flipped(v: Option<Value>) -> Option<Value> {
    match v {
        None => Some(Value::Boolean(true)),
        Some(Value::Boolean(b)) => Some(Value::Boolean(!b)),
        Some(Value::Collection(c)) => Some(Value::Collection(c.reverse())),
        Some(_) => Some(Value::Boolean(false)),
    }
}

/// The place in a collection of `len` items that index `i` names: the
/// remainder of `i` by `len` that is never negative.
pub open spec fn wrap_index(i: int, len: int) -> int {
    i % len
}

/// What stands at index `n` of a collection: nil in an empty one.
pub open spec fn element_at(items: Seq<Option<Value>>, n: Number) -> Option<Value> {
    if items.len() == 0 {
        None
    } else {
        items[wrap_index(n.truncation() as int, items.len() as int)]
    }
}

/// A string as a collection of its code points, each a string of its own.
pub open spec fn chars_of(s: Seq<char>) -> Seq<Option<Value>> {
    Seq::new(s.len(), |i: int| Some(Value::String(s.subrange(i, i + 1))))
}

/// The strings of a collection joined; what is no string is left out.
pub open spec fn joined(items: Seq<Option<Value>>) -> Seq<char>
    decreases items.len(),
{
    if items.len() == 0 {
        Seq::empty()
    } else {
        joined(items.drop_last()) + (match items.last() {
            Some(Value::String(s)) => s,
            _ => Seq::empty(),
        })
    }
}

/// `==` on two values.
pub fn is_equal(a: &Option<Literal>, b: &Option<Literal>) -> (r: Option<Literal>)
    ensures
        view_slot(r) == equal_values(view_slot(*a), view_slot(*b)),
{
    match (a, b) {
        (None, None) => Some(Literal::Boolean(true)),
        (Some(Literal::Boolean(x)), Some(Literal::Boolean(y))) => Some(Literal::Boolean(*x == *y)),
        (Some(Literal::Number(x)), Some(Literal::Number(y))) => Some(Literal::Boolean(x.eq(*y))),
        (Some(Literal::String(x)), Some(Literal::String(y))) => Some(Literal::Boolean(*x == *y)),
        (Some(_), Some(_)) => None,
        _ => Some(Literal::Boolean(false)),
    }
}

/// `!=` on two values.
pub fn is_not_equal(a: &Option<Literal>, b: &Option<Literal>) -> (r: Option<Literal>)
    ensures
        view_slot(r) == unequal_values(view_slot(*a), view_slot(*b)),
{
    match is_equal(a, b) {
        Some(Literal::Boolean(e)) => Some(Literal::Boolean(!e)),
        other => other,
    }
}

/// The truthiness of a value.
pub fn is_truthy(object: &Option<Literal>) -> (r: bool)
    ensures
        r == truthy(view_slot(*object)),
{
    match object {
        None => false,
        Some(Literal::Boolean(b)) => *b,
        Some(_) => true,
    }
}

/// The items in reverse order.
pub fn reversed(items: Vec<Option<Literal>>) -> (r: Vec<Option<Literal>>)
    ensures
        view_items(r) == view_items(items).reverse(),
{
    let mut rest = items;
    let mut out: Vec<Option<Literal>> = Vec::new();
    while rest.len() > 0
        invariant
            out@.len() + rest@.len() == items@.len(),
            forall|j: int| 0 <= j < rest@.len() ==> rest@[j] == items@[j],
            forall|j: int| 0 <= j < out@.len() ==> out@[j] == items@[items@.len() - 1 - j],
        decreases rest.len(),
    {
        let item = rest.pop();
        match item {
            Some(x) => out.push(x),
            None => {},
        }
    }
    assert(view_items(out) =~= view_items(items).reverse());
    out
}

/// `!` on a value.
pub fn is_truthy_flip(object: Option<Literal>) -> (r: Option<Literal>)
    ensures
        view_slot(r) == flipped(view_slot(object)),
{
    match object {
        None => Some(Literal::Boolean(true)),
        Some(Literal::Boolean(b)) => Some(Literal::Boolean(!b)),
        Some(Literal::Collection(c)) => Some(Literal::Collection(reversed(c))),
        Some(_) => Some(Literal::Boolean(false)),
    }
}

/// The wrapped index as a machine integer.
pub fn wrap(i: i32, len: usize) -> (r: usize)
    requires
        len > 0,
    ensures
        r == wrap_index(i as int, len as int),
        r < len,
{
    if i >= 0 {
        (i as usize) % len
    } else {
        let n: i64 = -(i as i64);
        let m: usize = (n as usize) % len;
        let ghost q: int = (n as int) / (len as int);
        proof {
            lemma_fundamental_div_mod(n as int, len as int);
            assert(q * (len as int) == (len as int) * q) by (nonlinear_arith);
        }
        if m == 0 {
            assert(i as int == (-q) * (len as int) + 0) by (nonlinear_arith)
                requires
                    n as int == q * (len as int) + 0,
                    i as int == -(n as int),
            ;
            proof {
                lemma_fundamental_div_mod_converse(i as int, len as int, -q, 0);
            }
            0
        } else {
            assert(i as int == (-q - 1) * (len as int) + (len - m)) by (nonlinear_arith)
                requires
                    n as int == q * (len as int) + m,
                    i as int == -(n as int),
            ;
            proof {
                lemma_fundamental_div_mod_converse(i as int, len as int, -q - 1, (len - m) as int);
            }
            len - m
        }
    }
}

/// A copy of what stands at index `n`.
pub fn index_value(items: &Vec<Option<Literal>>, n: Number) -> (r: Option<Literal>)
    ensures
        view_slot(r) == element_at(view_items(*items), n),
{
    if items.len() == 0 {
        None
    } else {
        let k: usize = wrap(n.to_i32(), items.len());
        copy_slot(&items[k])
    }
}

/// Splits a string into its code points.
pub fn split_chars(s: &String) -> (r: Vec<Option<Literal>>)
    ensures
        view_items(r) == chars_of(s@),
{
    let text = s.as_str();
    let n: usize = text.unicode_len();
    let mut out: Vec<Option<Literal>> = Vec::new();
    let mut i: usize = 0;
    while i < n
        invariant
            i <= n,
            n == s@.len(),
            text@ == s@,
            out@.len() == i,
            forall|j: int| 0 <= j < i ==> view_slot(out@[j]) == chars_of(s@)[j],
        decreases n - i,
    {
        let piece = String::from_str(text.substring_char(i, i + 1));
        out.push(Some(Literal::String(piece)));
        i += 1;
    }
    assert(view_items(out) =~= chars_of(s@));
    out
}

/// Joins the strings of a collection.
pub fn join_strings(items: &Vec<Option<Literal>>) -> (r: String)
    ensures
        r@ == joined(view_items(*items)),
{
    let mut out = String::new();
    let mut i: usize = 0;
    assert(view_items(*items).take(0) =~= Seq::empty());
    while i < items.len()
        invariant
            i <= items.len(),
            out@ == joined(view_items(*items).take(i as int)),
        decreases items.len() - i,
    {
        proof {
            let now = view_items(*items).take(i + 1);
            assert(now.drop_last() =~= view_items(*items).take(i as int));
            assert(now.last() == view_slot(items@[i as int]));
        }
        match &items[i] {
            Some(Literal::String(s)) => out.append(s.as_str()),
            _ => {
                assert(out@ + Seq::<char>::empty() =~= out@);
            },
        }
        i += 1;
    }
    assert(view_items(*items).take(items@.len() as int) =~= view_items(*items));
    out
}

/// What an arithmetic or ordering operator gives for two numbers.
pub open spec fn numeric(op: TokenType, x: Number, y: Number) -> Value {
    match op {
        TokenType::Plus => Value::Number(x.plus(y)),
        TokenType::Minus => Value::Number(x.minus(y)),
        TokenType::Slash => Value::Number(x.over(y)),
        TokenType::Star => Value::Number(x.times(y)),
        TokenType::Mod => Value::Number(x.modulo(y)),
        TokenType::Greater => Value::Boolean(y.below(x)),
        TokenType::GreaterEqual => Value::Boolean(y.at_most(x)),
        TokenType::Less => Value::Boolean(x.below(y)),
        _ => Value::Boolean(x.at_most(y)),
    }
}

/// Whether `op` is one of the operators that take two numbers only.
pub open spec fn takes_numbers(op: TokenType) -> bool {
    op == TokenType::Minus || op == TokenType::Slash || op == TokenType::Star || op
        == TokenType::Mod || op == TokenType::Greater || op == TokenType::GreaterEqual || op
        == TokenType::Less || op == TokenType::LessEqual
}

/// What `+` gives for two values that are numbers or strings: the sum of
/// two numbers, else the two texts joined.
pub open spec fn sum_or_text(a: Option<Value>, b: Option<Value>) -> Option<Value> {
    match (a, b) {
        (Some(Value::Number(x)), Some(Value::Number(y))) => Some(Value::Number(x.plus(y))),
        (Some(Value::String(x)), Some(Value::String(y))) => Some(Value::String(x + y)),
        (Some(Value::String(x)), Some(Value::Number(y))) => Some(Value::String(x + y.text())),
        (Some(Value::Number(x)), Some(Value::String(y))) => Some(Value::String(x.text() + y)),
        _ => None,
    }
}

/// A binary operator applied to two values: the result, or the message of
/// the error.
pub open spec fn binary_value(op: TokenType, a: Option<Value>, b: Option<Value>) -> Result<
    Option<Value>,
    Seq<char>,
> {
    if op == TokenType::Plus {
        match sum_or_text(a, b) {
            Some(v) => Ok(Some(v)),
            None => Err("Operands must be Numbers Or Strings."@),
        }
    } else if takes_numbers(op) {
        match (a, b) {
            (Some(Value::Number(x)), Some(Value::Number(y))) => Ok(Some(numeric(op, x, y))),
            _ => Err("Operands must be Numbers."@),
        }
    } else if op == TokenType::BangEqual {
        Ok(unequal_values(a, b))
    } else if op == TokenType::EqualEqual {
        Ok(equal_values(a, b))
    } else {
        Err("Invalid Operands"@)
    }
}

/// What plain `=` stores: the value itself, unless the name holds a strong
/// variant. Then a value of the same base kind is stored as that strong
/// variant, and any other value, nil too, is refused.
pub open spec fn pinned(current: Option<Value>, value: Option<Value>) -> Result<Option<Value>, Seq<char>> {
    match current {
        Some(Value::StrongNumber(_)) => match value {
            Some(Value::Number(y)) => Ok(Some(Value::StrongNumber(y))),
            Some(Value::StrongNumber(y)) => Ok(Some(Value::StrongNumber(y))),
            _ => Err("Invalid assign"@),
        },
        Some(Value::StrongBoolean(_)) => match value {
            Some(Value::Boolean(y)) => Ok(Some(Value::StrongBoolean(y))),
            Some(Value::StrongBoolean(y)) => Ok(Some(Value::StrongBoolean(y))),
            _ => Err("Invalid assign"@),
        },
        Some(Value::StrongString(_)) => match value {
            Some(Value::String(y)) => Ok(Some(Value::StrongString(y))),
            Some(Value::StrongString(y)) => Ok(Some(Value::StrongString(y))),
            _ => Err("Invalid assign"@),
        },
        _ => Ok(value),
    }
}

/// A collection without the item at index `n`: nil once nothing is left, and
/// an empty collection as it was.
pub open spec fn without(items: Seq<Option<Value>>, n: Number) -> Option<Value> {
    if items.len() == 0 {
        Some(Value::Collection(items))
    } else {
        let rest = items.remove(wrap_index(n.truncation() as int, items.len() as int));
        if rest.len() == 0 {
            None
        } else {
            Some(Value::Collection(rest))
        }
    }
}

/// Whether `op` is one of the five operators of compound assignment.
pub open spec fn compounds(op: TokenType) -> bool {
    op == TokenType::Plus || op == TokenType::Minus || op == TokenType::Slash || op
        == TokenType::Star || op == TokenType::Mod
}

/// What a compound assignment gives for a number that is held and a number
/// that is assigned: the arithmetic result, strong where the held one is.
pub open spec fn compound_numbers(op: TokenType, current: Option<Value>, value: Option<Value>) -> Option<
    Value,
> {
    match (current, value) {
        (Some(Value::Number(x)), Some(Value::Number(y))) => Some(numeric(op, x, y)),
        (Some(Value::StrongNumber(x)), Some(Value::Number(y))) => Some(
            Value::StrongNumber(numeric(op, x, y)->Number_0),
        ),
        (Some(Value::StrongNumber(x)), Some(Value::StrongNumber(y))) => Some(
            Value::StrongNumber(numeric(op, x, y)->Number_0),
        ),
        _ => None,
    }
}

/// What an assignment stores, from what the storage holds and the value
/// assigned: the new value, or the message of the error.
pub open spec fn assign_value(op: Option<TokenType>, current: Option<Value>, value: Option<Value>) -> Result<
    Option<Value>,
    Seq<char>,
> {
    match op {
        None => pinned(current, value),
        Some(t) => if !compounds(t) {
            Err("Invalid assign"@)
        } else if compound_numbers(t, current, value) is Some {
            Ok(compound_numbers(t, current, value))
        } else if t == TokenType::Plus {
            match (current, value) {
                (Some(Value::Collection(x)), y) => Ok(Some(Value::Collection(x.push(y)))),
                (None, Some(Value::Number(_))) => Err("Cannot add Number from Nil."@),
                _ => match sum_or_text(current, value) {
                    Some(v) => Ok(Some(v)),
                    None => Err("Operands must be Numbers Or Strings."@),
                },
            }
        } else if t == TokenType::Minus {
            match (current, value) {
                (Some(Value::Collection(x)), Some(Value::Number(y))) => Ok(without(x, y)),
                (None, Some(Value::Number(_))) => Err("Cannot subtract Number from Nil."@),
                _ => Err("Operands must be Numbers."@),
            }
        } else {
            Err("Operands must be Numbers."@)
        },
    }
}

/// The number that an arithmetic operator gives.
fn arithmetic(op: TokenType, x: Number, y: Number) -> (r: Number)
    requires
        compounds(op),
    ensures
        Value::Number(r) == numeric(op, x, y),
{
    match op {
        TokenType::Plus => x.add(y),
        TokenType::Minus => x.sub(y),
        TokenType::Slash => x.div(y),
        TokenType::Star => x.mul(y),
        _ => x.rem_euclid(y),
    }
}

fn sum_text(a: Option<Literal>, b: Option<Literal>) -> (r: Option<Literal>)
    ensures
        view_slot(r) == sum_or_text(view_slot(a), view_slot(b)),
{
    match (a, b) {
        (Some(Literal::Number(x)), Some(Literal::Number(y))) => Some(Literal::Number(x.add(y))),
        (Some(Literal::String(x)), Some(Literal::String(y))) => Some(
            Literal::String(x.concat(y.as_str())),
        ),
        (Some(Literal::String(x)), Some(Literal::Number(y))) => {
            let t = y.to_text();
            Some(Literal::String(x.concat(t.as_str())))
        },
        (Some(Literal::Number(x)), Some(Literal::String(y))) => {
            let t = x.to_text();
            Some(Literal::String(t.concat(y.as_str())))
        },
        _ => None,
    }
}

/// What the model of a message is.
pub open spec fn view_outcome(r: Result<Option<Literal>, String>) -> Result<Option<Value>, Seq<char>> {
    match r {
        Ok(v) => Ok(view_slot(v)),
        Err(m) => Err(m@),
    }
}

/// Applies a binary operator to two values.
pub fn binary_op(op: TokenType, a: Option<Literal>, b: Option<Literal>) -> (r: Result<
    Option<Literal>,
    String,
>)
    ensures
        view_outcome(r) == binary_value(op, view_slot(a), view_slot(b)),
{
    match op {
        TokenType::Plus => match sum_text(a, b) {
            Some(v) => Ok(Some(v)),
            None => Err(String::from_str("Operands must be Numbers Or Strings.")),
        },
        TokenType::Minus | TokenType::Slash | TokenType::Star | TokenType::Mod => match (a, b) {
            (Some(Literal::Number(x)), Some(Literal::Number(y))) => Ok(
                Some(Literal::Number(arithmetic(op, x, y))),
            ),
            _ => Err(String::from_str("Operands must be Numbers.")),
        },
        TokenType::Greater | TokenType::GreaterEqual | TokenType::Less | TokenType::LessEqual => match (
            a,
            b,
        ) {
            (Some(Literal::Number(x)), Some(Literal::Number(y))) => {
                let t: bool = match op {
                    TokenType::Greater => x.gt(y),
                    TokenType::GreaterEqual => x.ge(y),
                    TokenType::Less => x.lt(y),
                    _ => x.le(y),
                };
                Ok(Some(Literal::Boolean(t)))
            },
            _ => Err(String::from_str("Operands must be Numbers.")),
        },
        TokenType::BangEqual => Ok(is_not_equal(&a, &b)),
        TokenType::EqualEqual => Ok(is_equal(&a, &b)),
        _ => Err(String::from_str("Invalid Operands")),
    }
}

fn pin(current: Option<Literal>, value: Option<Literal>) -> (r: Result<Option<Literal>, String>)
    ensures
        view_outcome(r) == pinned(view_slot(current), view_slot(value)),
{
    match current {
        Some(Literal::StrongNumber(_)) => match value {
            Some(Literal::Number(y)) => Ok(Some(Literal::StrongNumber(y))),
            Some(Literal::StrongNumber(y)) => Ok(Some(Literal::StrongNumber(y))),
            _ => Err(String::from_str("Invalid assign")),
        },
        Some(Literal::StrongBoolean(_)) => match value {
            Some(Literal::Boolean(y)) => Ok(Some(Literal::StrongBoolean(y))),
            Some(Literal::StrongBoolean(y)) => Ok(Some(Literal::StrongBoolean(y))),
            _ => Err(String::from_str("Invalid assign")),
        },
        Some(Literal::StrongString(_)) => match value {
            Some(Literal::String(y)) => Ok(Some(Literal::StrongString(y))),
            Some(Literal::StrongString(y)) => Ok(Some(Literal::StrongString(y))),
            _ => Err(String::from_str("Invalid assign")),
        },
        _ => Ok(value),
    }
}

fn remove_at(items: Vec<Option<Literal>>, n: Number) -> (r: Option<Literal>)
    ensures
        view_slot(r) == without(view_items(items), n),
{
    let mut rest = items;
    if rest.len() == 0 {
        Some(Literal::Collection(rest))
    } else {
        let k: usize = wrap(n.to_i32(), rest.len());
        let _ = rest.remove(k);
        assert(view_items(rest) =~= view_items(items).remove(k as int));
        if rest.len() == 0 {
            None
        } else {
            Some(Literal::Collection(rest))
        }
    }
}

/// Computes what an assignment stores.
pub fn combine(op: Option<TokenType>, current: Option<Literal>, value: Option<Literal>) -> (r: Result<
    Option<Literal>,
    String,
>)
    ensures
        view_outcome(r) == assign_value(op, view_slot(current), view_slot(value)),
{
    let t: TokenType = match op {
        None => {
            return pin(current, value);
        },
        Some(t) => t,
    };
    match t {
        TokenType::Plus | TokenType::Minus | TokenType::Slash | TokenType::Star | TokenType::Mod => {},
        _ => {
            return Err(String::from_str("Invalid assign"));
        },
    }
    match (current, value) {
        (Some(Literal::Number(x)), Some(Literal::Number(y))) => Ok(
            Some(Literal::Number(arithmetic(t, x, y))),
        ),
        (Some(Literal::StrongNumber(x)), Some(Literal::Number(y))) => Ok(
            Some(Literal::StrongNumber(arithmetic(t, x, y))),
        ),
        (Some(Literal::StrongNumber(x)), Some(Literal::StrongNumber(y))) => Ok(
            Some(Literal::StrongNumber(arithmetic(t, x, y))),
        ),
        (current, value) => match t {
            TokenType::Plus => match (current, value) {
                (Some(Literal::Collection(x)), y) => {
                    let mut items = x;
                    items.push(y);
                    assert(view_items(items) =~= view_items(x).push(view_slot(y)));
                    Ok(Some(Literal::Collection(items)))
                },
                (None, Some(Literal::Number(_))) => Err(
                    String::from_str("Cannot add Number from Nil."),
                ),
                (current, value) => match sum_text(current, value) {
                    Some(v) => Ok(Some(v)),
                    None => Err(String::from_str("Operands must be Numbers Or Strings.")),
                },
            },
            TokenType::Minus => match (current, value) {
                (Some(Literal::Collection(x)), Some(Literal::Number(y))) => Ok(remove_at(x, y)),
                (None, Some(Literal::Number(_))) => Err(
                    String::from_str("Cannot subtract Number from Nil."),
                ),
                _ => Err(String::from_str("Operands must be Numbers.")),
            },
            _ => Err(String::from_str("Operands must be Numbers.")),
        },
    }
}

/// A prefix operator other than `++` and `--` applied to a value: the
/// result, or the message of the error.
pub open spec fn unary_value(op: TokenType, v: Option<Value>) -> Result<Option<Value>, Seq<char>> {
    if op == TokenType::Minus {
        match v {
            Some(Value::Number(x)) => Ok(Some(Value::Number(x.negated()))),
            _ => Err("Operand must be a Number."@),
        }
    } else if op == TokenType::Hash {
        match v {
            Some(Value::Collection(c)) => Ok(Some(Value::Number(Number::of_count(c.len() as usize)))),
            _ => Err("Operand must be a List."@),
        }
    } else if op == TokenType::Bang {
        Ok(flipped(v))
    } else {
        Err("Operand type not found."@)
    }
}

/// Applies a prefix operator other than `++` and `--`.
pub fn unary_op(op: TokenType, v: Option<Literal>) -> (r: Result<Option<Literal>, String>)
    ensures
        view_outcome(r) == unary_value(op, view_slot(v)),
{
    match op {
        TokenType::Minus => match v {
            Some(Literal::Number(x)) => Ok(Some(Literal::Number(x.neg()))),
            _ => Err(String::from_str("Operand must be a Number.")),
        },
        TokenType::Hash => match v {
            Some(Literal::Collection(c)) => {
                proof {
                    reveal_with_fuel(view_slot, 3);
                }
                Ok(Some(Literal::Number(Number::from_count(c.len()))))
            },
            _ => Err(String::from_str("Operand must be a List.")),
        },
        TokenType::Bang => Ok(is_truthy_flip(v)),
        _ => Err(String::from_str("Operand type not found.")),
    }
}

} // verus!
