//! Which picture an arrow key moves to, skipping deleted ones.
use vstd::prelude::*;

verus! {

/// The index shown after stepping left from `current`: the nearest earlier
/// index that is not deleted, or the first index when all earlier ones are.
pub fn step_left(deleted: &[bool], current: usize) -> (r: usize)
    requires
        0 < current < deleted@.len(),
    ensures
        r < current,
        !deleted@[r as int] || r == 0,
        forall|j: int| r < j < current ==> #[trigger] deleted@[j],
{
    let mut new_id: usize = current - 1;
    loop
        invariant
            new_id < current < deleted@.len(),
            forall|j: int| new_id < j < current ==> #[trigger] deleted@[j],
        ensures
            !deleted@[new_id as int] || new_id == 0,
        decreases new_id,
    {
        if !deleted[new_id] {
            break;
        }
        if new_id == 0 {
            break;
        }
        new_id = new_id - 1;
    }
    new_id
}

/// The index shown after stepping right from `current`: the nearest later index
/// that is not deleted, or the last index when all later ones are.
pub fn step_right(deleted: &[bool], current: usize) -> (r: usize)
    requires
        current + 1 < deleted@.len(),
    ensures
        current < r < deleted@.len(),
        !deleted@[r as int] || r == deleted@.len() - 1,
        forall|j: int| current < j < r ==> #[trigger] deleted@[j],
{
    let last = deleted.len() - 1;
    let mut new_id: usize = current + 1;
    loop
        invariant
            current < new_id <= last,
            last == deleted@.len() - 1,
            forall|j: int| current < j < new_id ==> #[trigger] deleted@[j],
        ensures
            !deleted@[new_id as int] || new_id == last,
        decreases last - new_id,
    {
        if !deleted[new_id] {
            break;
        }
        if new_id == last {
            break;
        }
        new_id = new_id + 1;
    }
    new_id
}

} // verus!
