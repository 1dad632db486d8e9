//! A bridge between a caller that holds a job description and an evaluator
//! that the embedding environment supplies.
//!
//! The bridge hands the job description to the evaluator as it received it and
//! hands the evaluator's value back as it received it. The values that travel
//! through it are opaque: the bridge is generic in them and reads none.

use vstd::prelude::*;

pub mod laws;

verus! {

/// `evaluate` may be called on every text that reads as `job`.
pub open spec fn accepts<V, F: FnOnce(&str) -> V>(evaluate: F, job: Seq<char>) -> bool {
    forall|text: &str| #[trigger] text@ == job ==> call_requires(evaluate, (text,))
}

/// `value` is a value that `evaluate` may return when it is called on a text
/// that reads as `job`.
pub open spec fn evaluates_to<V, F: FnOnce(&str) -> V>(
    evaluate: F,
    job: Seq<char>,
    value: V,
) -> bool {
    exists|text: &str| #[trigger] text@ == job && call_ensures(evaluate, (text,), value)
}

/// Hands `hamsters_job` to `evaluate` and returns what `evaluate` returned.
///
/// The job description reaches the evaluator character for character, and the
/// value that comes back is the evaluator's own. `params` is accepted and
/// neither read nor handed on: the evaluator receives the job description and
/// nothing else. `evaluate` is consumed by its one call, and since the bridge
/// is generic in `V` it has no other source of a value to return.
///
/// Nothing is caught here: if `evaluate` does not return, neither does the
/// bridge.
#[allow(unused_variables)]
pub fn process_data<P, V, F>(hamsters_job: String, params: P, evaluate: F) -> (result: V) where
    F: FnOnce(&str) -> V,

    requires
        accepts(evaluate, hamsters_job@),
    ensures
        evaluates_to(evaluate, hamsters_job@, result),
{
    evaluate(hamsters_job.as_str())
}

} // verus!
