//! Laws that relate several operations of the protocol.

use vstd::prelude::*;
use futures::future::Ready;
use vstd::future::FutureAdditionalSpecFns;
use std::rc::Rc;
use std::sync::Arc;
use crate::future::ExecutionResult;
use crate::reflect::{TypeDescriptor, WrappedValue, SINGULAR};
use crate::str_view;
use crate::string;
use crate::string::{expected_message, is_string_literal, literal_text, resolved, string_name};
use crate::token::{ParseError, ScalarToken};
use crate::value::{InputValue, ScalarValue};

verus! {

/// Synchronous and asynchronous resolution of any text both give the output
/// value that wraps exactly that text, and so agree.
pub proof fn law_sync_async_agree(v: &str, r: ExecutionResult, f: Ready<ExecutionResult>)
    requires
        str_view::resolve_value.ensures((v,), r),
        str_view::resolve_value_async.ensures((v,), f),
    ensures
        r is Ok,
        f@ is Ok,
        r->Ok_0@ == resolved(v@),
        r->Ok_0@ == f@->Ok_0@,
{
}

/// Resolving the same text twice, by either path, gives equal output values.
pub proof fn law_resolution_repeatable(
    v: &str,
    r1: ExecutionResult,
    r2: ExecutionResult,
    f1: Ready<ExecutionResult>,
    f2: Ready<ExecutionResult>,
)
    requires
        str_view::resolve_value.ensures((v,), r1),
        str_view::resolve_value.ensures((v,), r2),
        str_view::resolve_value_async.ensures((v,), f1),
        str_view::resolve_value_async.ensures((v,), f2),
    ensures
        r1 is Ok && r2 is Ok && r1->Ok_0@ == r2->Ok_0@,
        f1@ is Ok && f2@ is Ok && f1@->Ok_0@ == f2@->Ok_0@,
{
}

/// The four ownership modes of coercion agree on every literal: a literal of
/// text gives its text in each of them, and any other literal is refused by
/// each with ``Expected `String`, found: `` followed by how it is shown.
pub proof fn law_coercion_modes_agree(
    v: &InputValue,
    by_ref: Result<&str, String>,
    boxed: Result<Box<str>, String>,
    rc: Result<Rc<String>, String>,
    arc: Result<Arc<String>, String>,
)
    requires
        str_view::try_from_input_value.ensures((v,), by_ref),
        str_view::try_from_input_value_box.ensures((v,), boxed),
        str_view::try_from_input_value_rc.ensures((v,), rc),
        str_view::try_from_input_value_arc.ensures((v,), arc),
    ensures
        is_string_literal(*v) ==> {
            &&& by_ref is Ok && boxed is Ok && rc is Ok && arc is Ok
            &&& by_ref->Ok_0@ == literal_text(*v)
            &&& boxed->Ok_0@ == literal_text(*v)
            &&& rc->Ok_0@ == literal_text(*v)
            &&& arc->Ok_0@ == literal_text(*v)
        },
        !is_string_literal(*v) ==> {
            &&& by_ref is Err && boxed is Err && rc is Err && arc is Err
            &&& by_ref->Err_0@ == expected_message(string_name(), *v)
            &&& boxed->Err_0@ == expected_message(string_name(), *v)
            &&& rc->Err_0@ == expected_message(string_name(), *v)
            &&& arc->Err_0@ == expected_message(string_name(), *v)
        },
{
}

/// `str` carries the identity of `String` unchanged: the same name, no
/// wrapping, and its own name as its only subtype.
pub proof fn law_reflection_of_owned(
    name: &'static str,
    owned_name: &'static str,
    listed_name: &'static str,
    owned_listed_name: &'static str,
    nesting: WrappedValue,
    subtypes: Vec<&'static str>,
    meta: TypeDescriptor,
)
    requires
        str_view::name.ensures((), name),
        string::name.ensures((), owned_name),
        str_view::schema_type_name.ensures((), listed_name),
        string::schema_type_name.ensures((), owned_listed_name),
        str_view::wrapped_value.ensures((), nesting),
        str_view::sub_type_names.ensures((), subtypes),
        str_view::meta.ensures((), meta),
    ensures
        name@ == owned_name@,
        listed_name@ == owned_listed_name@,
        listed_name@ == name@,
        nesting == SINGULAR,
        subtypes@.len() == 1 && subtypes@[0]@ == name@,
        meta@.name == name@ && meta@.is_plain_scalar(),
{
}

/// Parsing a token through `str` gives what parsing it through `String`
/// gives: the same value, or the same error.
pub proof fn law_token_parsing_delegates(
    t: ScalarToken,
    r: Result<ScalarValue, ParseError>,
    owned: Result<ScalarValue, ParseError>,
)
    requires
        str_view::parse_scalar_token.ensures((t,), r),
        string::parse_scalar_token.ensures((t,), owned),
    ensures
        r is Ok <==> owned is Ok,
        r is Ok ==> r->Ok_0@ == owned->Ok_0@,
        r is Err ==> r->Err_0@ == owned->Err_0@,
{
}

} // verus!
