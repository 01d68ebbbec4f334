//! The external calculation engine behind the query route.

use vstd::prelude::*;

verus! {

/// The outcome of evaluating a calculation: its main result string, or the
/// engine's error message.
pub uninterp spec fn eval_outcome(input: Seq<char>) -> Result<Seq<char>, Seq<char>>;

/// Relies on fend_core::evaluate on a freshly made fend_core::Context, which
/// carries no clock, no random source and no exchange rates, so the outcome
/// is a function of the input alone; the success string is what
/// fend_core::FendResult::get_main_result returns.
#[verifier::external_body]
pub(crate) fn evaluate_query(input: &str) -> (r: Result<String, String>)
    ensures
        r is Ok <==> eval_outcome(input@) is Ok,
        r matches Ok(s) ==> s@ == eval_outcome(input@)->Ok_0,
        r matches Err(e) ==> e@ == eval_outcome(input@)->Err_0,
{
    match fend_core::evaluate(input, &mut fend_core::Context::new()) {
        Ok(res) => Ok(res.get_main_result().to_string()),
        Err(e) => Err(e),
    }
}

} // verus!
