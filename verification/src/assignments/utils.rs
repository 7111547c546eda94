use vstd::prelude::*;

use crate::db::{DbConn, QueryError};

verus! {

/// The ids of all assignments, in table order.
pub fn get_ids(connection: &DbConn) -> (r: Result<Vec<String>, QueryError>)
    ensures
        r matches Ok(ids) && ids@.len() == connection.assignments@.len() && forall|i: int|
            0 <= i < ids@.len() ==> #[trigger] ids@[i] == connection.assignments@[i].assignment_id,
{
    let n = connection.assignments.len();
    let mut ids: Vec<String> = Vec::new();
    let mut i: usize = 0;
    while i < n
        invariant
            i <= n,
            n == connection.assignments@.len(),
            ids@.len() == i,
            forall|j: int|
                0 <= j < i ==> #[trigger] ids@[j] == connection.assignments@[j].assignment_id,
        decreases n - i,
    {
        ids.push(connection.assignments.get(i).assignment_id.clone());
        i += 1;
    }
    Ok(ids)
}

} // verus!
