//! The in-memory part of the task routes: filtering a user's task ids
//! down to those the caller does not already know. The task rows
//! themselves live with the persistence collaborator.

use vstd::prelude::*;

verus! {

/// The caller-supplied list of task ids it already knows.
pub struct UnknownTasksRequest {
    pub known_task_ids: Vec<i32>,
}

/// The ids that remain after dropping every known one, in their original
/// order.
pub open spec fn spec_unknown_ids(task_ids: Seq<i32>, known: Seq<i32>) -> Seq<i32>
    decreases task_ids.len(),
{
    if task_ids.len() == 0 {
        Seq::empty()
    } else {
        let rest = spec_unknown_ids(task_ids.drop_last(), known);
        if !known.contains(task_ids.last()) {
            rest.push(task_ids.last())
        } else {
            rest
        }
    }
}

fn contains_id(ids: &Vec<i32>, id: i32) -> (r: bool)
    ensures
        r == ids@.contains(id),
{
    let n = ids.len();
    let mut i: usize = 0;
    while i < n
        invariant
            n == ids@.len(),
            i <= n,
            forall|j: int| 0 <= j < i ==> ids@[j] != id,
        decreases n - i,
    {
        if ids[i] == id {
            return true;
        }
        i += 1;
    }
    false
}

/// Of the task ids a user owns, keep those the caller does not already
/// know, in their original order.
pub fn filter_unknown_task_ids(task_ids: &Vec<i32>, request: &UnknownTasksRequest) -> (r: Vec<i32>)
    ensures
        r@ == spec_unknown_ids(task_ids@, request.known_task_ids@),
{
    let n = task_ids.len();
    let mut result: Vec<i32> = Vec::new();
    let mut i: usize = 0;
    proof {
        assert(task_ids@.take(0) =~= Seq::<i32>::empty());
    }
    while i < n
        invariant
            n == task_ids@.len(),
            i <= n,
            result@ == spec_unknown_ids(task_ids@.take(i as int), request.known_task_ids@),
        decreases n - i,
    {
        proof {
            assert(task_ids@.take(i + 1).drop_last() =~= task_ids@.take(i as int));
            assert(task_ids@.take(i + 1).last() == task_ids@[i as int]);
        }
        if !contains_id(&request.known_task_ids, task_ids[i]) {
            result.push(task_ids[i]);
        }
        i += 1;
    }
    proof {
        assert(task_ids@.take(n as int) =~= task_ids@);
    }
    result
}

} // verus!
