//! What holds of the bridge for every evaluator, stated over the relation
//! that the contract of `process_data` is written in.

use vstd::prelude::*;
use crate::evaluates_to;

verus! {

/// On texts that read as `job`, `evaluate` has one value only.
pub open spec fn single_valued<V, F: FnOnce(&str) -> V>(evaluate: F, job: Seq<char>) -> bool {
    forall|first: V, second: V|
        evaluates_to(evaluate, job, first) && evaluates_to(evaluate, job, second) ==> first
            == second
}

/// Whatever holds of every value that the evaluator may return on a job
/// description holds of the value that the bridge returns for it.
pub proof fn lemma_result_is_the_evaluators<V, F: FnOnce(&str) -> V>(
    evaluate: F,
    job: Seq<char>,
    result: V,
    holds: spec_fn(V) -> bool,
)
    requires
        forall|value: V| #[trigger] evaluates_to(evaluate, job, value) ==> holds(value),
        evaluates_to(evaluate, job, result),
    ensures
        holds(result),
{
}

/// Two calls of the bridge with the same job description return the same
/// value, whatever parameters came with each, when the evaluator has one value
/// only for that job description.
///
/// `first` and `second` stand for what the two calls returned: each is bound
/// by the bridge's contract to be a value of the evaluator on `job`, and the
/// parameters bind neither.
pub proof fn lemma_params_not_observed<P, V, F: FnOnce(&str) -> V>(
    evaluate: F,
    job: Seq<char>,
    first_params: P,
    second_params: P,
    first: V,
    second: V,
)
    requires
        single_valued(evaluate, job),
        evaluates_to(evaluate, job, first),
        evaluates_to(evaluate, job, second),
    ensures
        first == second,
{
}

/// A failure that the evaluator returns as its value reaches the caller of the
/// bridge as it is: where `error` is all that the evaluator may return on
/// `job`, the bridge returns `error`.
pub proof fn lemma_failure_propagates<T, E, F: FnOnce(&str) -> Result<T, E>>(
    evaluate: F,
    job: Seq<char>,
    error: E,
    result: Result<T, E>,
)
    requires
        forall|value: Result<T, E>| #[trigger]
            evaluates_to(evaluate, job, value) ==> value == Err::<T, E>(error),
        evaluates_to(evaluate, job, result),
    ensures
        result == Err::<T, E>(error),
{
}

} // verus!
