//! Retriever abstractions for FerricLink Core.
//!
//! Retrievers dispatch through asynchronous traits and live with the
//! surrounding application; the verified part here is the method for
//! combining results from multiple retrievers.

use vstd::prelude::*;

verus! {

/// Method for combining results from multiple retrievers
#[derive(Debug, Clone, Copy, PartialEq, Eq, Structural)]
pub enum CombineMethod {
    /// Take the union of all results
    Union,
    /// Take the intersection of all results
    Intersection,
    /// Take the first retriever's results
    First,
    /// Take the last retriever's results
    Last,
}

impl Default for CombineMethod {
    /// The default combine method is the union of all results.
    fn default() -> (r: Self)
        ensures
            r == CombineMethod::Union,
    {
        CombineMethod::Union
    }
}

} // verus!
