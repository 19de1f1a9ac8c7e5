use vstd::prelude::*;

verus! {

/// The answer of the ESI search endpoint: the ids of the matching characters.
#[derive(Clone, Debug)]
pub struct SearchResult {
    pub character: Vec<u64>,
}

} // verus!
