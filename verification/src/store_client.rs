//! What the store's RPC client makes of the store's answers.
use vstd::prelude::*;

verus! {

/// The answer to a request for the links of a block, given the links that the
/// store holds of it: none where it holds none.
pub fn links_answer<T>(links: Vec<T>) -> (r: Option<Vec<T>>)
    ensures
        links@.len() == 0 ==> r is None,
        links@.len() > 0 ==> r == Some(links),
{
    if links.len() == 0 {
        None
    } else {
        Some(links)
    }
}

} // verus!
