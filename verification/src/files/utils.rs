use vstd::prelude::*;

use crate::db::{DbConn, QueryError};

verus! {

/// The ids of all files, in table order.
pub fn get_file_ids(connection: &DbConn) -> (r: Result<Vec<String>, QueryError>)
    ensures
        r matches Ok(ids) && ids@.len() == connection.files@.len() && forall|i: int|
            0 <= i < ids@.len() ==> #[trigger] ids@[i] == connection.files@[i].file_id,
{
    let n = connection.files.len();
    let mut ids: Vec<String> = Vec::new();
    let mut i: usize = 0;
    while i < n
        invariant
            i <= n,
            n == connection.files@.len(),
            ids@.len() == i,
            forall|j: int| 0 <= j < i ==> #[trigger] ids@[j] == connection.files@[j].file_id,
        decreases n - i,
    {
        ids.push(connection.files.get(i).file_id.clone());
        i += 1;
    }
    Ok(ids)
}

} // verus!
