use vstd::prelude::*;

verus! {

/// What an attachment can embed: an uploaded file or a link.
pub trait Embedable {

}

} // verus!
