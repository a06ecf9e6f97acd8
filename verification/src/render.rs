//! The text that `print` shows for a value.

use crate::class::function_name;
use crate::value::view_binding;
use crate::value::view_bindings;
use crate::value::view_items;
use crate::value::view_slot;
use crate::value::Binding;
use crate::value::BindingValue;
use crate::value::Builtin;
use crate::value::Callable;
use crate::value::CallableValue;
use crate::value::Literal;
use crate::value::Signal;
use crate::value::Value;
use vstd::prelude::*;

verus! {

/// The name of a host function.
pub open spec fn builtin_name(b: Builtin) -> Seq<char> {
    match b {
        Builtin::Clock => "clock"@,
        Builtin::Len => "len"@,
        Builtin::Debug => "debug"@,
    }
}

/// The text of a value. A collection is `[e1, e2]`; an instance is
/// `Name { f = v, g = w }` (`Name {}` without fields), or with `new_line` one
/// field per line; a function is `<fn name>`; nil is `nil`.
pub open spec fn render(v: Option<Value>, new_line: bool) -> Seq<char>
    decreases v, 0int,
{
    match v {
        None => "nil"@,
        Some(Value::Number(n)) => n.text(),
        Some(Value::StrongNumber(n)) => n.text(),
        Some(Value::String(s)) => s,
        Some(Value::StrongString(s)) => s,
        Some(Value::Boolean(b)) => if b {
            "true"@
        } else {
            "false"@
        },
        Some(Value::StrongBoolean(b)) => if b {
            "true"@
        } else {
            "false"@
        },
        Some(Value::Collection(items)) => "["@ + render_items(items, items.len() as int) + "]"@,
        Some(Value::Function(CallableValue::User(f))) => "<fn "@ + function_name(f) + ">"@,
        Some(Value::Function(CallableValue::Native(b))) => "<native fn "@ + builtin_name(b) + ">"@,
        Some(Value::Class(c)) => "<class "@ + c.name + ">"@,
        Some(Value::Instance(i)) => if new_line {
            i.class.name + " {\n"@ + render_lines(i.fields, i.fields.len() as int) + "}"@
        } else if i.fields.len() == 0 {
            i.class.name + " {}"@
        } else {
            i.class.name + " { "@ + render_fields(i.fields, i.fields.len() as int) + " }"@
        },
        Some(Value::Keyword(Signal::Break)) => "break"@,
        Some(Value::Keyword(Signal::Continue)) => "continue"@,
        Some(Value::Return(b)) => render(*b, new_line),
    }
}

/// The first `n` items, each in its short form, with `, ` between them.
pub open spec fn render_items(items: Seq<Option<Value>>, n: int) -> Seq<char>
    decreases items, n,
{
    if n <= 0 || n > items.len() {
        Seq::empty()
    } else if n == 1 {
        render(items[0], false)
    } else {
        render_items(items, n - 1) + ", "@ + render(items[n - 1], false)
    }
}

/// One field as `name = value`.
pub open spec fn render_field(field: BindingValue) -> Seq<char>
    decreases field, 0int,
{
    field.name + " = "@ + render(field.value, false)
}

/// The first `n` fields with `, ` between them.
pub open spec fn render_fields(fields: Seq<BindingValue>, n: int) -> Seq<char>
    decreases fields, n,
{
    if n <= 0 || n > fields.len() {
        Seq::empty()
    } else if n == 1 {
        render_field(fields[0])
    } else {
        render_fields(fields, n - 1) + ", "@ + render_field(fields[n - 1])
    }
}

/// The first `n` fields, each indented on a line of its own.
pub open spec fn render_lines(fields: Seq<BindingValue>, n: int) -> Seq<char>
    decreases fields, n,
{
    if n <= 0 || n > fields.len() {
        Seq::empty()
    } else {
        render_lines(fields, n - 1) + "  "@ + render_field(fields[n - 1]) + "\n"@
    }
}

fn builtin_text(b: Builtin) -> (r: &'static str)
    ensures
        r@ == builtin_name(b),
{
    match b {
        Builtin::Clock => "clock",
        Builtin::Len => "len",
        Builtin::Debug => "debug",
    }
}

fn items_text(items: &Vec<Option<Literal>>) -> (r: String)
    ensures
        r@ == render_items(view_items(*items), items@.len() as int),
    decreases items,
{
    let mut out = String::new();
    let mut i: usize = 0;
    while i < items.len()
        invariant
            i <= items.len(),
            out@ == render_items(view_items(*items), i as int),
        decreases items.len() - i,
    {
        let piece = text_of(&items[i], false);
        if i > 0 {
            out.append(", ");
        } else {
            assert(out@ + piece@ =~= piece@);
        }
        out.append(piece.as_str());
        i += 1;
    }
    out
}

fn field_text(field: &Binding) -> (r: String)
    ensures
        r@ == render_field(view_binding(*field)),
    decreases field,
{
    let mut out = field.name.clone();
    out.append(" = ");
    let piece = text_of(&field.value, false);
    out.append(piece.as_str());
    out
}

fn fields_text(fields: &Vec<Binding>, lines: bool) -> (r: String)
    ensures
        r@ == if lines {
            render_lines(view_bindings(*fields), fields@.len() as int)
        } else {
            render_fields(view_bindings(*fields), fields@.len() as int)
        },
    decreases fields,
{
    let mut out = String::new();
    let mut i: usize = 0;
    while i < fields.len()
        invariant
            i <= fields.len(),
            out@ == if lines {
                render_lines(view_bindings(*fields), i as int)
            } else {
                render_fields(view_bindings(*fields), i as int)
            },
        decreases fields.len() - i,
    {
        let piece = field_text(&fields[i]);
        if lines {
            out.append("  ");
            out.append(piece.as_str());
            out.append("\n");
        } else {
            if i > 0 {
                out.append(", ");
            } else {
                assert(out@ + piece@ =~= piece@);
            }
            out.append(piece.as_str());
        }
        i += 1;
    }
    out
}

/// The text of a value: see [`render`].
pub fn text_of(value: &Option<Literal>, new_line: bool) -> (r: String)
    ensures
        r@ == render(view_slot(*value), new_line),
    decreases value,
{
    match value {
        None => String::from_str("nil"),
        Some(Literal::Number(n)) => n.to_text(),
        Some(Literal::StrongNumber(n)) => n.to_text(),
        Some(Literal::String(s)) => s.clone(),
        Some(Literal::StrongString(s)) => s.clone(),
        Some(Literal::Boolean(b)) => if *b {
            String::from_str("true")
        } else {
            String::from_str("false")
        },
        Some(Literal::StrongBoolean(b)) => if *b {
            String::from_str("true")
        } else {
            String::from_str("false")
        },
        Some(Literal::Collection(items)) => {
            let mut out = String::from_str("[");
            let inner = items_text(items);
            out.append(inner.as_str());
            out.append("]");
            out
        },
        Some(Literal::Function(Callable::User(f))) => {
            let mut out = String::from_str("<fn ");
            out.append(f.declaration.name.lexeme.as_str());
            out.append(">");
            proof {
                reveal_with_fuel(view_slot, 4);
            }
            out
        },
        Some(Literal::Function(Callable::Native(b))) => {
            let mut out = String::from_str("<native fn ");
            out.append(builtin_text(*b));
            out.append(">");
            proof {
                reveal_with_fuel(view_slot, 4);
            }
            out
        },
        Some(Literal::Class(c)) => {
            let mut out = String::from_str("<class ");
            out.append(c.name.as_str());
            out.append(">");
            proof {
                reveal_with_fuel(view_slot, 4);
            }
            out
        },
        Some(Literal::Instance(i)) => {
            let mut out = i.class.name.clone();
            proof {
                reveal_with_fuel(view_slot, 4);
            }
            if new_line {
                out.append(" {\n");
                let inner = fields_text(&i.fields, true);
                out.append(inner.as_str());
                out.append("}");
            } else if i.fields.len() == 0 {
                out.append(" {}");
            } else {
                out.append(" { ");
                let inner = fields_text(&i.fields, false);
                out.append(inner.as_str());
                out.append(" }");
            }
            out
        },
        Some(Literal::Keyword(Signal::Break)) => String::from_str("break"),
        Some(Literal::Keyword(Signal::Continue)) => String::from_str("continue"),
        Some(Literal::Return(b)) => text_of(&**b, new_line),
    }
}

} // verus!
