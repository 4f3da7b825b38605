//! Scalar, output and input values, with their mathematical models.

use vstd::prelude::*;
use crate::text::{int_text, push_char, write_int};

verus! {

/// The engine's serialisable scalar representation.
#[derive(Clone, Debug, PartialEq)]
pub enum ScalarValue {
    Int(i32),
    Boolean(bool),
    String(String),
}

/// Model of a [`ScalarValue`]: text is a sequence of characters.
pub enum ScalarModel {
    Int(i32),
    Boolean(bool),
    String(Seq<char>),
}

impl View for ScalarValue {
    type V = ScalarModel;

    open spec fn view(&self) -> ScalarModel {
        match self {
            ScalarValue::Int(i) => ScalarModel::Int(*i),
            ScalarValue::Boolean(b) => ScalarModel::Boolean(*b),
            ScalarValue::String(s) => ScalarModel::String(s@),
        }
    }
}

/// A resolved output value, as handed to the executor.
#[derive(Clone, Debug, PartialEq)]
pub enum Value {
    Null,
    Scalar(ScalarValue),
}

/// Model of a [`Value`].
pub enum ValueModel {
    Null,
    Scalar(ScalarModel),
}

impl View for Value {
    type V = ValueModel;

    open spec fn view(&self) -> ValueModel {
        match self {
            Value::Null => ValueModel::Null,
            Value::Scalar(s) => ValueModel::Scalar(s@),
        }
    }
}

impl Value {
    /// Wraps a string as a scalar output value.
    pub fn scalar_string(s: String) -> (r: Value)
        ensures
            r@ == ValueModel::Scalar(ScalarModel::String(s@)),
    {
        Value::Scalar(ScalarValue::String(s))
    }
}

/// A parsed request literal.
#[derive(Debug)]
pub enum InputValue {
    Null,
    Scalar(ScalarValue),
    Enum(String),
    Variable(String),
    List(Vec<InputValue>),
    Object(Vec<(String, InputValue)>),
}

broadcast use vstd::std_specs::vec::axiom_vec_index_decreases;

/// How a scalar is shown inside a literal: text in double quotes, integers
/// in decimal, booleans as `true` or `false`.
pub open spec fn scalar_text(s: ScalarValue) -> Seq<char> {
    match s {
        ScalarValue::Int(i) => int_text(i as int),
        ScalarValue::Boolean(b) => if b {
            seq!['t', 'r', 'u', 'e']
        } else {
            seq!['f', 'a', 'l', 's', 'e']
        },
        ScalarValue::String(t) => seq!['"'] + t@ + seq!['"'],
    }
}

/// How a literal is shown: `null`, scalars as in [`scalar_text`], enum
/// values by name, variables as `$name`, lists as `[a, b]` and objects as
/// `{k: a, l: b}`.
pub open spec fn input_text(v: InputValue) -> Seq<char>
    decreases v, 0nat,
{
    match v {
        InputValue::Null => seq!['n', 'u', 'l', 'l'],
        InputValue::Scalar(s) => scalar_text(s),
        InputValue::Enum(n) => n@,
        InputValue::Variable(n) => seq!['$'] + n@,
        InputValue::List(items) => seq!['['] + items_text(items, items.len() as nat) + seq![']'],
        InputValue::Object(fields) => seq!['{'] + fields_text(fields, fields.len() as nat) + seq![
            '}',
        ],
    }
}

/// The first `n` items of a list, separated by `, `.
pub open spec fn items_text(items: Vec<InputValue>, n: nat) -> Seq<char>
    decreases items, n,
{
    if n == 0 || n > items.len() {
        seq![]
    } else if n == 1 {
        input_text(items[0])
    } else {
        items_text(items, (n - 1) as nat) + seq![',', ' '] + input_text(items[n - 1])
    }
}

/// One field of an object: `key: value`.
pub open spec fn field_text(key: String, v: InputValue) -> Seq<char>
    decreases v, 1nat,
{
    key@ + seq![':', ' '] + input_text(v)
}

/// The first `n` fields of an object, separated by `, `.
pub open spec fn fields_text(fields: Vec<(String, InputValue)>, n: nat) -> Seq<char>
    decreases fields, n,
{
    if n == 0 || n > fields.len() {
        seq![]
    } else if n == 1 {
        field_text(fields[0].0, fields[0].1)
    } else {
        fields_text(fields, (n - 1) as nat) + seq![',', ' '] + field_text(
            fields[n - 1].0,
            fields[n - 1].1,
        )
    }
}

fn write_quoted(out: &mut String, t: &String)
    ensures
        final(out)@ == old(out)@ + (seq!['"'] + t@ + seq!['"']),
{
    push_char(out, '"');
    out.append(t.as_str());
    push_char(out, '"');
    assert(out@ =~= old(out)@ + (seq!['"'] + t@ + seq!['"']));
}

/// Appends how the scalar `s` is shown inside a literal.
pub fn write_scalar(out: &mut String, s: &ScalarValue)
    ensures
        final(out)@ == old(out)@ + scalar_text(*s),
{
    match s {
        ScalarValue::Int(i) => write_int(out, *i),
        ScalarValue::Boolean(b) => {
            if *b {
                out.append("true");
                proof {
                    reveal_strlit("true");
                }
                assert(out@ =~= old(out)@ + scalar_text(*s));
            } else {
                out.append("false");
                proof {
                    reveal_strlit("false");
                }
                assert(out@ =~= old(out)@ + scalar_text(*s));
            }
        },
        ScalarValue::String(t) => write_quoted(out, t),
    }
}

/// Appends how the literal `v` is shown.
pub fn write_input(out: &mut String, v: &InputValue)
    ensures
        final(out)@ == old(out)@ + input_text(*v),
    decreases v,
{
    match v {
        InputValue::Null => {
            out.append("null");
            proof {
                reveal_strlit("null");
            }
            assert(out@ =~= old(out)@ + input_text(*v));
        },
        InputValue::Scalar(s) => write_scalar(out, s),
        InputValue::Enum(n) => out.append(n.as_str()),
        InputValue::Variable(n) => {
            push_char(out, '$');
            out.append(n.as_str());
            assert(out@ =~= old(out)@ + input_text(*v));
        },
        InputValue::List(items) => {
            push_char(out, '[');
            let ghost start = out@;
            let mut i: usize = 0;
            while i < items.len()
                invariant
                    i <= items.len(),
                    out@ == start + items_text(*items, i as nat),
                    *v == InputValue::List(*items),
                decreases items.len() - i,
            {
                if i > 0 {
                    push_char(out, ',');
                    push_char(out, ' ');
                }
                proof {
                    assert(decreases_to!(*v => v->List_0));
                    assert(decreases_to!(*items => items[i as int]));
                    assert(decreases_to!(*v => items[i as int]));
                }
                write_input(out, &items[i]);
                assert(out@ =~= start + items_text(*items, (i + 1) as nat));
                i += 1;
            }
            push_char(out, ']');
            assert(out@ =~= old(out)@ + input_text(*v));
        },
        InputValue::Object(fields) => {
            push_char(out, '{');
            let ghost start = out@;
            let mut i: usize = 0;
            while i < fields.len()
                invariant
                    i <= fields.len(),
                    out@ == start + fields_text(*fields, i as nat),
                    *v == InputValue::Object(*fields),
                decreases fields.len() - i,
            {
                if i > 0 {
                    push_char(out, ',');
                    push_char(out, ' ');
                }
                out.append(fields[i].0.as_str());
                push_char(out, ':');
                push_char(out, ' ');
                proof {
                    assert(decreases_to!(*v => v->Object_0));
                    assert(decreases_to!(*fields => fields[i as int]));
                    assert(decreases_to!(fields[i as int] => fields[i as int].1));
                    assert(decreases_to!(*v => fields[i as int].1));
                }
                write_input(out, &fields[i].1);
                let ghost f = fields[i as int];
                assert(field_text(f.0, f.1) == f.0@ + seq![':', ' '] + input_text(f.1));
                if i == 0 {
                    assert(out@ =~= start + field_text(f.0, f.1));
                } else {
                    assert(out@ =~= start + fields_text(*fields, i as nat) + seq![',', ' ']
                        + field_text(f.0, f.1));
                }
                assert(out@ =~= start + fields_text(*fields, (i + 1) as nat));
                i += 1;
            }
            push_char(out, '}');
            assert(out@ =~= old(out)@ + input_text(*v));
        },
    }
}

impl InputValue {
    /// Wraps a string as a scalar literal.
    pub fn scalar_string(s: String) -> (r: InputValue)
        ensures
            r == InputValue::Scalar(ScalarValue::String(s)),
    {
        InputValue::Scalar(ScalarValue::String(s))
    }

    /// The text of a string literal, if this is one.
    pub fn as_string_value(&self) -> (r: Option<&str>)
        ensures
            r is Some <==> self is Scalar && self->Scalar_0 is String,
            r is Some ==> r->Some_0@ == self->Scalar_0->String_0@,
    {
        match self {
            InputValue::Scalar(ScalarValue::String(s)) => Some(s.as_str()),
            _ => None,
        }
    }

    /// How this literal is shown.
    pub fn to_text(&self) -> (r: String)
        ensures
            r@ == input_text(*self),
    {
        let mut out = String::new();
        write_input(&mut out, self);
        assert(out@ =~= input_text(*self));
        out
    }
}

} // verus!
