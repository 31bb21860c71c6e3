//! A scripted language-model client: it answers with queued responses in order.

use std::collections::VecDeque;

use vstd::prelude::*;

use crate::llm::error::LLMError;
use crate::llm::types::CompletionResponse;
use crate::text::owned;

verus! {

/// A client whose completions are taken, first in first out, from a queue of
/// scripted results.
#[derive(Debug)]
pub struct MockLLMClient {
    responses: VecDeque<Result<CompletionResponse, LLMError>>,
}

impl MockLLMClient {
    /// The results still queued, in the order they will be returned.
    pub closed spec fn queued(&self) -> Seq<Result<CompletionResponse, LLMError>> {
        self.responses@
    }

    /// A client with nothing queued.
    pub fn new() -> (r: Self)
        ensures
            r.queued() == Seq::<Result<CompletionResponse, LLMError>>::empty(),
    {
        MockLLMClient { responses: VecDeque::new() }
    }

    /// Queues a result behind those already queued.
    pub fn enqueue_response(&mut self, response: Result<CompletionResponse, LLMError>)
        ensures
            final(self).queued() == old(self).queued().push(response),
    {
        self.responses.push_back(response);
    }

    /// Answers a completion request: the oldest queued result, or a provider
    /// error saying no response was scripted.
    pub fn complete(&mut self) -> (r: Result<CompletionResponse, LLMError>)
        ensures
            old(self).queued().len() > 0 ==> r == old(self).queued()[0] && final(self).queued()
                == old(self).queued().drop_first(),
            old(self).queued().len() == 0 ==> final(self).queued() == old(self).queued() && (
            match r {
                Err(LLMError::ProviderError(msg)) => msg@ == "mock response not provided"@,
                _ => false,
            }),
    {
        match self.responses.pop_front() {
            Some(r) => r,
            None => Err(LLMError::ProviderError(owned("mock response not provided"))),
        }
    }
}

} // verus!
