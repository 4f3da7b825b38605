//! The scalar protocol for borrowed text, `str`. It has no identity, grammar
//! or validation of its own: every operation forwards to owned `String`.

use vstd::prelude::*;
use futures::future::Ready;
use vstd::future::FutureAdditionalSpecFns;
use std::rc::Rc;
use std::sync::Arc;
use crate::future::ExecutionResult;
use crate::reflect::{TypeDescriptor, WrappedValue, SINGULAR};
use crate::string;
use crate::string::{
    expected_message, is_string_literal, literal_text, resolved, string_name, token_spec,
};
use crate::token::{ParseError, ScalarToken};
use crate::value::{InputValue, ScalarValue};

verus! {

/// Relies on `From<&str> for Box<str>`: a boxed copy of the text.
#[verifier::external_body]
fn box_str(s: &str) -> (r: Box<str>)
    ensures
        r@ == s@,
{
    Box::from(s)
}

/// The schema name of `str`: that of `String`.
pub fn name() -> (r: &'static str)
    ensures
        r@ == string_name(),
{
    string::name()
}

/// The name that a schema lists `str` under: that of `String`.
pub fn schema_type_name() -> (r: &'static str)
    ensures
        r@ == string_name(),
{
    string::schema_type_name()
}

/// The names that `str` stands for: its own name alone.
pub fn sub_type_names() -> (r: Vec<&'static str>)
    ensures
        r@.len() == 1,
        r@[0]@ == string_name(),
{
    let mut r: Vec<&'static str> = Vec::new();
    r.push(name());
    r
}

/// `str` is not wrapped in a list or a nullable.
pub fn wrapped_value() -> (r: WrappedValue)
    ensures
        r == SINGULAR,
{
    SINGULAR
}

/// The descriptor that the registry builds the schema type from: that of
/// `String`.
pub fn meta() -> (r: TypeDescriptor)
    ensures
        r@.name == string_name(),
        r@.is_plain_scalar(),
{
    string::meta()
}

/// Resolves text to an output value, through a copy into a `String`; this
/// never fails.
pub fn resolve_value(v: &str) -> (r: ExecutionResult)
    ensures
        r is Ok,
        r->Ok_0@ == resolved(v@),
{
    string::resolve_value(&v.to_owned())
}

/// Resolves text to an output value, as an already completed future that
/// yields what [`resolve_value`] returns.
pub fn resolve_value_async(v: &str) -> (r: Ready<ExecutionResult>)
    ensures
        r@ is Ok,
        r@->Ok_0@ == resolved(v@),
{
    string::resolve_value_async(&v.to_owned())
}

/// The literal that stands for the text `v`.
pub fn to_input_value(v: &str) -> (r: InputValue)
    ensures
        is_string_literal(r),
        literal_text(r) == v@,
{
    string::to_input_value(&v.to_owned())
}

/// Coerces a literal of text into a reference into it, without copying.
/// Any other literal is refused with the message of [`expected_message`].
pub fn try_from_input_value(v: &InputValue) -> (r: Result<&str, String>)
    ensures
        r is Ok <==> is_string_literal(*v),
        r is Ok ==> r->Ok_0@ == literal_text(*v),
        r is Err ==> r->Err_0@ == expected_message(string_name(), *v),
{
    string::try_from_input_value_ref(v)
}

/// Coerces a literal of text into a boxed copy, exclusively owned.
pub fn try_from_input_value_box(v: &InputValue) -> (r: Result<Box<str>, String>)
    ensures
        r is Ok <==> is_string_literal(*v),
        r is Ok ==> r->Ok_0@ == literal_text(*v),
        r is Err ==> r->Err_0@ == expected_message(string_name(), *v),
{
    match try_from_input_value(v) {
        Ok(s) => Ok(box_str(s)),
        Err(e) => Err(e),
    }
}

/// Coerces a literal of text into a copy shared by reference counting, for
/// one thread.
pub fn try_from_input_value_rc(v: &InputValue) -> (r: Result<Rc<String>, String>)
    ensures
        r is Ok <==> is_string_literal(*v),
        r is Ok ==> r->Ok_0@ == literal_text(*v),
        r is Err ==> r->Err_0@ == expected_message(string_name(), *v),
{
    match try_from_input_value(v) {
        Ok(s) => Ok(Rc::new(s.to_owned())),
        Err(e) => Err(e),
    }
}

/// Coerces a literal of text into a copy shared by atomic reference
/// counting, readable from many threads.
pub fn try_from_input_value_arc(v: &InputValue) -> (r: Result<Arc<String>, String>)
    ensures
        r is Ok <==> is_string_literal(*v),
        r is Ok ==> r->Ok_0@ == literal_text(*v),
        r is Err ==> r->Err_0@ == expected_message(string_name(), *v),
{
    match try_from_input_value(v) {
        Ok(s) => Ok(Arc::new(s.to_owned())),
        Err(e) => Err(e),
    }
}

/// Parses a raw token exactly as `String` does.
pub fn parse_scalar_token(t: ScalarToken) -> (r: Result<ScalarValue, ParseError>)
    ensures
        r is Ok <==> token_spec(t) is Ok,
        r is Ok ==> r->Ok_0@ == token_spec(t)->Ok_0,
        r is Err ==> r->Err_0@ == token_spec(t)->Err_0,
{
    string::parse_scalar_token(t)
}

} // verus!
