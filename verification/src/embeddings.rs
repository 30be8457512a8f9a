//! Embeddings abstractions for FerricLink Core.
//!
//! Embedding models themselves work in floating point and through
//! asynchronous traits, so they live with the surrounding application; the
//! verified part here is the configuration of the mock embedding model used
//! for testing.

use vstd::prelude::*;
use vstd::string::StringExecFns;

verus! {

/// A simple mock embedding model for testing
#[derive(Debug)]
pub struct MockEmbeddings {
    /// Name reported for the mock model
    pub model_name: String,
    /// Dimension of the produced embeddings
    pub dimension: usize,
}

impl MockEmbeddings {
    /// Create a new mock embedding model
    pub fn new(model_name: &str, dimension: usize) -> (r: Self)
        ensures
            r.model_name@ == model_name@,
            r.dimension == dimension,
    {
        MockEmbeddings { model_name: model_name.to_owned(), dimension }
    }

    /// Get the model name
    pub fn model_name(&self) -> (r: &str)
        ensures
            r@ == self.model_name@,
    {
        self.model_name.as_str()
    }

    /// Get the embedding dimension
    pub fn dimension(&self) -> (r: usize)
        ensures
            r == self.dimension,
    {
        self.dimension
    }
}

/// Helper function to create a mock embedding model
pub fn mock_embeddings(model_name: &str, dimension: usize) -> (r: MockEmbeddings)
    ensures
        r.model_name@ == model_name@,
        r.dimension == dimension,
{
    MockEmbeddings::new(model_name, dimension)
}

} // verus!
