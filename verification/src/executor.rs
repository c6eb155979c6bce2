//! The join discipline of the concurrent executor.
//!
//! One event's independent repository calls are issued as a fan-out set and
//! joined with fail-fast semantics: the whole event resolves to the first
//! failure, if any, and already-started calls are neither cancelled nor
//! rolled back. The decision below is the single place that aggregation is
//! defined; the loop that awaits the calls hands it their outcomes.

use vstd::prelude::*;

verus! {

/// The index of the first failed outcome in a fan-out set, or nothing when
/// every outcome succeeded. The caller resolves the whole set to the
/// failure at that index; outcomes after it may have succeeded already and
/// are not rolled back.
pub fn first_failure_index<E>(results: &Vec<Result<(), E>>) -> (r: Option<usize>)
    ensures
        (match r {
            Some(i) => i < results@.len() && results@[i as int] is Err && (forall|j: int|
                0 <= j < i ==> results@[j] is Ok),
            None => forall|j: int| 0 <= j < results@.len() ==> results@[j] is Ok,
        }),
{
    let mut i: usize = 0;
    while i < results.len()
        invariant
            i <= results@.len(),
            forall|j: int| 0 <= j < i ==> results@[j] is Ok,
        decreases results@.len() - i,
    {
        if results[i].is_err() {
            return Some(i);
        }
        i = i + 1;
    }
    None
}

/// Joins a fan-out set to one outcome: success when every call succeeded,
/// else the first failure, exactly as it was reported.
pub fn join_outcomes<E: Copy>(results: &Vec<Result<(), E>>) -> (r: Result<(), E>)
    ensures
        r is Ok <==> (forall|j: int| 0 <= j < results@.len() ==> results@[j] is Ok),
        r is Err ==> exists|i: int|
            0 <= i < results@.len() && #[trigger] results@[i] == r && (forall|j: int|
                0 <= j < i ==> results@[j] is Ok),
{
    match first_failure_index(results) {
        None => Ok(()),
        Some(i) => results[i],
    }
}

} // verus!
