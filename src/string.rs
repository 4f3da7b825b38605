//! The scalar protocol for owned text, `String`: the canonical type that
//! borrowed text forwards to.

use vstd::prelude::*;
use futures::future::Ready;
use vstd::future::FutureAdditionalSpecFns;
use crate::future::{ready_ok, ExecutionResult};
use crate::reflect::{TypeDescriptor, WrappedValue, SINGULAR};
use crate::text::write_str;
use crate::token::{unescape, unescape_spec, ParseError, ParseErrorModel, ScalarToken};
use crate::value::{input_text, write_input, InputValue, ScalarModel, ScalarValue, Value, ValueModel};

verus! {

/// The schema name of text.
pub open spec fn string_name() -> Seq<char> {
    seq!['S', 't', 'r', 'i', 'n', 'g']
}

/// The output value that resolving the text `t` gives.
pub open spec fn resolved(t: Seq<char>) -> ValueModel {
    ValueModel::Scalar(ScalarModel::String(t))
}

/// The message of a literal `v` of the wrong shape, for a type named `name`.
pub open spec fn expected_message(name: Seq<char>, v: InputValue) -> Seq<char> {
    seq!['E', 'x', 'p', 'e', 'c', 't', 'e', 'd', ' ', '`'] + name + seq![
        '`',
        ',',
        ' ',
        'f',
        'o',
        'u',
        'n',
        'd',
        ':',
        ' ',
    ] + input_text(v)
}

/// Whether `v` is a literal of text.
pub open spec fn is_string_literal(v: InputValue) -> bool {
    v is Scalar && v->Scalar_0 is String
}

/// The text of a literal of text.
pub open spec fn literal_text(v: InputValue) -> Seq<char> {
    v->Scalar_0->String_0@
}

/// What parsing a token as text gives.
pub open spec fn token_spec(t: ScalarToken) -> Result<ScalarModel, ParseErrorModel> {
    match t {
        ScalarToken::String(s) => match unescape_spec(s@) {
            Ok(u) => Ok(ScalarModel::String(u)),
            Err(e) => Err(e),
        },
        ScalarToken::Float(s) => Err(ParseErrorModel::UnexpectedToken(s@)),
        ScalarToken::Int(s) => Err(ParseErrorModel::UnexpectedToken(s@)),
    }
}

/// The schema name of `String`.
pub fn name() -> (r: &'static str)
    ensures
        r@ == string_name(),
{
    proof {
        reveal_strlit("String");
    }
    "String"
}

/// The name that a schema lists `String` under.
pub fn schema_type_name() -> (r: &'static str)
    ensures
        r@ == string_name(),
{
    name()
}

/// The names that `String` stands for: its own alone.
pub fn sub_type_names() -> (r: Vec<&'static str>)
    ensures
        r@.len() == 1,
        r@[0]@ == string_name(),
{
    let mut r: Vec<&'static str> = Vec::new();
    r.push(name());
    r
}

/// `String` is not wrapped in a list or a nullable.
pub fn wrapped_value() -> (r: WrappedValue)
    ensures
        r == SINGULAR,
{
    SINGULAR
}

/// The descriptor that the registry builds the schema type from.
pub fn meta() -> (r: TypeDescriptor)
    ensures
        r@.name == string_name(),
        r@.is_plain_scalar(),
{
    TypeDescriptor::plain_scalar(name())
}

/// Resolves text to an output value; this never fails.
pub fn resolve_value(v: &String) -> (r: ExecutionResult)
    ensures
        r is Ok,
        r->Ok_0@ == resolved(v@),
{
    Ok(Value::scalar_string(v.clone()))
}

/// Resolves text to an output value, as an already completed future that
/// yields what [`resolve_value`] returns.
pub fn resolve_value_async(v: &String) -> (r: Ready<ExecutionResult>)
    ensures
        r@ is Ok,
        r@->Ok_0@ == resolved(v@),
{
    ready_ok(Value::scalar_string(v.clone()))
}

/// The literal that stands for the text `v`.
pub fn to_input_value(v: &String) -> (r: InputValue)
    ensures
        is_string_literal(r),
        literal_text(r) == v@,
{
    InputValue::scalar_string(v.clone())
}

/// The message for a literal of the wrong shape.
pub fn expected_error(name: &str, v: &InputValue) -> (r: String)
    ensures
        r@ == expected_message(name@, *v),
{
    let mut out = String::new();
    write_str(&mut out, "Expected `");
    write_str(&mut out, name);
    write_str(&mut out, "`, found: ");
    write_input(&mut out, v);
    proof {
        reveal_strlit("Expected `");
        reveal_strlit("`, found: ");
    }
    assert(out@ =~= expected_message(name@, *v));
    out
}

/// Reads a literal of text without copying it; any other literal is
/// refused with the message of [`expected_message`].
pub fn try_from_input_value_ref(v: &InputValue) -> (r: Result<&str, String>)
    ensures
        r is Ok <==> is_string_literal(*v),
        r is Ok ==> r->Ok_0@ == literal_text(*v),
        r is Err ==> r->Err_0@ == expected_message(string_name(), *v),
{
    match v.as_string_value() {
        Some(s) => Ok(s),
        None => Err(expected_error(name(), v)),
    }
}

/// Reads a literal of text into a new `String`.
pub fn try_from_input_value(v: &InputValue) -> (r: Result<String, String>)
    ensures
        r is Ok <==> is_string_literal(*v),
        r is Ok ==> r->Ok_0@ == literal_text(*v),
        r is Err ==> r->Err_0@ == expected_message(string_name(), *v),
{
    match try_from_input_value_ref(v) {
        Ok(s) => Ok(s.to_owned()),
        Err(e) => Err(e),
    }
}

/// Parses a raw token as text: a string token with its escapes resolved;
/// numbers are refused.
pub fn parse_scalar_token(t: ScalarToken) -> (r: Result<ScalarValue, ParseError>)
    ensures
        r is Ok <==> token_spec(t) is Ok,
        r is Ok ==> r->Ok_0@ == token_spec(t)->Ok_0,
        r is Err ==> r->Err_0@ == token_spec(t)->Err_0,
{
    match t {
        ScalarToken::String(s) => match unescape(s) {
            Ok(u) => Ok(ScalarValue::String(u)),
            Err(e) => Err(e),
        },
        ScalarToken::Float(s) => Err(ParseError::UnexpectedToken(s.to_owned())),
        ScalarToken::Int(s) => Err(ParseError::UnexpectedToken(s.to_owned())),
    }
}

} // verus!
