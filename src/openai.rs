//! The OpenAI Responses shape.

use vstd::prelude::*;

use crate::response::TokenUsage;

verus! {

/// One typed part of an input message.
#[derive(Clone, Debug)]
pub struct ContentPart {
    pub part_type: String,
    pub text: Option<String>,
}

/// Cached input tokens; always zero here.
#[derive(Clone, Copy, Debug)]
pub struct TokenDetails {
    pub cached_tokens: u32,
}

/// Reasoning output tokens; always zero here.
#[derive(Clone, Copy, Debug)]
pub struct OutputTokenDetails {
    pub reasoning_tokens: u32,
}

/// Usage block of a response.
#[derive(Clone, Copy, Debug)]
pub struct Usage {
    pub input_tokens: u32,
    pub input_tokens_details: TokenDetails,
    pub output_tokens: u32,
    pub output_tokens_details: OutputTokenDetails,
    pub total_tokens: u32,
}

impl Usage {
    /// The usage block for a tally.
    pub fn from_tally(t: TokenUsage) -> (r: Self)
        ensures
            r.input_tokens == t.input_tokens,
            r.output_tokens == t.output_tokens,
            r.total_tokens == t.total_tokens,
            r.input_tokens_details.cached_tokens == 0,
            r.output_tokens_details.reasoning_tokens == 0,
    {
        Usage {
            input_tokens: t.input_tokens,
            input_tokens_details: TokenDetails { cached_tokens: 0 },
            output_tokens: t.output_tokens,
            output_tokens_details: OutputTokenDetails { reasoning_tokens: 0 },
            total_tokens: t.total_tokens,
        }
    }
}

} // verus!
