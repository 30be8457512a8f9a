//! Core data types for language model invocation results, and simple mock
//! models for testing.
//!
//! A [`Generation`] is one generated completion: its text together with
//! plain-text metadata pairs. Lists of generations are what the cache in
//! [`crate::caches`] stores.

use vstd::prelude::*;

verus! {

/// A single generation (completion) from a language model
#[derive(Debug, Clone, PartialEq)]
pub struct Generation {
    /// The generated text
    pub text: String,
    /// Generation metadata, as key/value pairs of plain text
    pub generation_info: Vec<(String, String)>,
}

/// The mathematical value of a [`Generation`]: its text and metadata pairs
/// as sequences of characters.
pub ghost struct GenerationView {
    /// The generated text
    pub text: Seq<char>,
    /// Generation metadata pairs
    pub generation_info: Seq<(Seq<char>, Seq<char>)>,
}

impl View for Generation {
    type V = GenerationView;

    open spec fn view(&self) -> GenerationView {
        GenerationView {
            text: self.text@,
            generation_info: self.generation_info.deep_view(),
        }
    }
}

impl DeepView for Generation {
    type V = GenerationView;

    open spec fn deep_view(&self) -> GenerationView {
        self.view()
    }
}

impl Generation {
    /// Create a new generation
    pub fn new(text: &str) -> (r: Self)
        ensures
            r.text@ == text@,
            r.generation_info@ == Seq::<(String, String)>::empty(),
    {
        Generation { text: text.to_owned(), generation_info: Vec::new() }
    }

    /// Create a new generation with metadata
    pub fn new_with_info(text: &str, generation_info: Vec<(String, String)>) -> (r: Self)
        ensures
            r.text@ == text@,
            r.generation_info == generation_info,
    {
        Generation { text: text.to_owned(), generation_info }
    }

    /// Produce an identical copy of this generation.
    pub fn duplicate(&self) -> (r: Self)
        ensures
            r@ == self@,
    {
        let mut info: Vec<(String, String)> = Vec::new();
        let n = self.generation_info.len();
        let mut i: usize = 0;
        while i < n
            invariant
                0 <= i <= n,
                n == self.generation_info@.len(),
                info@.len() == i,
                forall|k: int| 0 <= k < i ==> info@[k] == self.generation_info@[k],
            decreases n - i,
        {
            let (k, v) = (
                self.generation_info[i].0.clone(),
                self.generation_info[i].1.clone(),
            );
            info.push((k, v));
            i += 1;
        }
        proof {
            assert(info@ =~= self.generation_info@);
            assert(info.deep_view() =~~= self.generation_info.deep_view());
        }
        Generation { text: self.text.clone(), generation_info: info }
    }
}

/// Produce an identical copy of a list of generations.
pub fn duplicate_generations(v: &Vec<Generation>) -> (r: Vec<Generation>)
    ensures
        r.deep_view() == v.deep_view(),
{
    let mut out: Vec<Generation> = Vec::new();
    let n = v.len();
    let mut i: usize = 0;
    while i < n
        invariant
            0 <= i <= n,
            n == v@.len(),
            out@.len() == i,
            forall|k: int| 0 <= k < i ==> #[trigger] out@[k]@ == v@[k]@,
        decreases n - i,
    {
        let g = v[i].duplicate();
        out.push(g);
        i += 1;
    }
    proof {
        assert(out.deep_view() =~~= v.deep_view());
    }
    out
}

/// A simple mock LLM for testing
#[derive(Debug)]
pub struct MockLLM {
    /// Name reported for the mock model
    pub model_name: String,
    /// Canned responses, served in rotation
    pub responses: Vec<String>,
    /// Index of the next canned response
    pub current_index: usize,
}

impl MockLLM {
    /// Create a new mock LLM
    pub fn new(model_name: &str) -> (r: Self)
        ensures
            r.model_name@ == model_name@,
            r.responses@ == Seq::<String>::empty(),
            r.current_index == 0,
    {
        MockLLM { model_name: model_name.to_owned(), responses: Vec::new(), current_index: 0 }
    }

    /// Add a response to the mock
    pub fn add_response(self, response: &str) -> (r: Self)
        ensures
            r.model_name == self.model_name,
            r.current_index == self.current_index,
            r.responses@.len() == self.responses@.len() + 1,
            forall|k: int| 0 <= k < self.responses@.len() ==> r.responses@[k] == self.responses@[k],
            r.responses@[self.responses@.len() as int]@ == response@,
    {
        let mut s = self;
        s.responses.push(response.to_owned());
        s
    }

    /// Get the model name
    pub fn model_name(&self) -> (r: &str)
        ensures
            r@ == self.model_name@,
    {
        self.model_name.as_str()
    }

    /// Get the next response, rotating through the canned responses.
    pub fn get_next_response(&mut self) -> (r: String)
        ensures
            old(self).responses@.len() == 0 ==> {
                &&& r@ == "Mock response"@
                &&& *final(self) == *old(self)
            },
            old(self).responses@.len() > 0 ==> {
                &&& r@ == old(self).responses@[
                        (old(self).current_index as int) % (old(self).responses@.len() as int)
                    ]@
                &&& final(self).current_index
                    == (old(self).current_index as nat + 1) % (usize::MAX as nat + 1)
                &&& final(self).responses == old(self).responses
                &&& final(self).model_name == old(self).model_name
            },
    {
        if self.responses.is_empty() {
            "Mock response".to_owned()
        } else {
            let index = self.current_index;
            self.current_index = self.current_index.wrapping_add(1);
            self.responses[index % self.responses.len()].clone()
        }
    }
}

/// A simple mock chat model for testing
#[derive(Debug)]
pub struct MockChatModel {
    /// Name reported for the mock model
    pub model_name: String,
    /// Canned responses, served in rotation
    pub responses: Vec<String>,
    /// Index of the next canned response
    pub current_index: usize,
}

impl MockChatModel {
    /// Create a new mock chat model
    pub fn new(model_name: &str) -> (r: Self)
        ensures
            r.model_name@ == model_name@,
            r.responses@ == Seq::<String>::empty(),
            r.current_index == 0,
    {
        MockChatModel {
            model_name: model_name.to_owned(),
            responses: Vec::new(),
            current_index: 0,
        }
    }

    /// Add a response to the mock
    pub fn add_response(self, response: &str) -> (r: Self)
        ensures
            r.model_name == self.model_name,
            r.current_index == self.current_index,
            r.responses@.len() == self.responses@.len() + 1,
            forall|k: int| 0 <= k < self.responses@.len() ==> r.responses@[k] == self.responses@[k],
            r.responses@[self.responses@.len() as int]@ == response@,
    {
        let mut s = self;
        s.responses.push(response.to_owned());
        s
    }

    /// Get the model name
    pub fn model_name(&self) -> (r: &str)
        ensures
            r@ == self.model_name@,
    {
        self.model_name.as_str()
    }

    /// Get the next response, rotating through the canned responses.
    pub fn get_next_response(&mut self) -> (r: String)
        ensures
            old(self).responses@.len() == 0 ==> {
                &&& r@ == "Mock chat response"@
                &&& *final(self) == *old(self)
            },
            old(self).responses@.len() > 0 ==> {
                &&& r@ == old(self).responses@[
                        (old(self).current_index as int) % (old(self).responses@.len() as int)
                    ]@
                &&& final(self).current_index
                    == (old(self).current_index as nat + 1) % (usize::MAX as nat + 1)
                &&& final(self).responses == old(self).responses
                &&& final(self).model_name == old(self).model_name
            },
    {
        if self.responses.is_empty() {
            "Mock chat response".to_owned()
        } else {
            let index = self.current_index;
            self.current_index = self.current_index.wrapping_add(1);
            self.responses[index % self.responses.len()].clone()
        }
    }
}

/// Helper function to create a mock LLM
pub fn mock_llm(model_name: &str) -> (r: MockLLM)
    ensures
        r.model_name@ == model_name@,
        r.responses@ == Seq::<String>::empty(),
        r.current_index == 0,
{
    MockLLM::new(model_name)
}

/// Helper function to create a mock chat model
pub fn mock_chat_model(model_name: &str) -> (r: MockChatModel)
    ensures
        r.model_name@ == model_name@,
        r.responses@ == Seq::<String>::empty(),
        r.current_index == 0,
{
    MockChatModel::new(model_name)
}

} // verus!
