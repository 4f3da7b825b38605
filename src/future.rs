//! Pre-completed asynchronous results.

use vstd::prelude::*;
use vstd::future::FutureAdditionalSpecFns;
use crate::value::Value;
use futures::future::Ready;

verus! {

#[verifier::external_type_specification]
#[verifier::external_body]
#[verifier::reject_recursive_types(T)]
pub struct ExReady<T>(Ready<T>);

/// The result of resolving a value.
pub type ExecutionResult = Result<Value, String>;

/// Relies on futures::future::ok: the future is already complete and
/// yields `Ok(v)` when awaited.
#[verifier::external_body]
pub(crate) fn ready_ok(v: Value) -> (r: Ready<ExecutionResult>)
    ensures
        r@ == ExecutionResult::Ok(v),
{
    futures::future::ok(v)
}

} // verus!
