//! The order of requests in a sequence.

use vstd::prelude::*;

verus! {

/// The requests at the increasing indices `at` are `steps`.
pub open spec fn stands_at<T>(requests: Seq<T>, steps: Seq<T>, at: Seq<int>) -> bool {
    &&& at.len() == steps.len()
    &&& forall|i: int|
        0 <= i < at.len() ==> 0 <= #[trigger] at[i] < requests.len() && requests[at[i]] == steps[i]
    &&& forall|i: int, j: int| 0 <= i < j < at.len() ==> #[trigger] at[i] < #[trigger] at[j]
}

/// The requests hold all of `steps`, in this order, whatever else stands between them.
pub open spec fn has_steps<T>(requests: Seq<T>, steps: Seq<T>) -> bool {
    exists|at: Seq<int>| #[trigger] stands_at(requests, steps, at)
}

/// The request is made exactly once.
pub open spec fn once<T>(requests: Seq<T>, request: T) -> bool {
    &&& requests.contains(request)
    &&& forall|i: int, j: int|
        0 <= i < requests.len() && 0 <= j < requests.len() && #[trigger] requests[i] == request
            && #[trigger] requests[j] == request ==> i == j
}

/// Steps that are taken in order are all among the requests, an earlier one before a later one.
pub proof fn law_steps_are_requests<T>(requests: Seq<T>, steps: Seq<T>, i: int, j: int)
    requires
        has_steps(requests, steps),
        0 <= i < j < steps.len(),
    ensures
        requests.contains(steps[i]),
        requests.contains(steps[j]),
        exists|a: int, b: int|
            0 <= a < b < requests.len() && #[trigger] requests[a] == steps[i]
                && #[trigger] requests[b] == steps[j],
{
    let at = choose|at: Seq<int>| #[trigger] stands_at(requests, steps, at);
    assert(requests[at[i]] == steps[i]);
    assert(requests[at[j]] == steps[j]);
}

} // verus!
