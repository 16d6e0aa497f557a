//! The OpenAI-compatible chat-completions shape.

use vstd::prelude::*;

use crate::response::{FinishReason, TokenUsage};

verus! {

/// Streaming options of a chat-completions request.
#[derive(Clone, Copy, Debug)]
pub struct StreamOptions {
    pub include_usage: bool,
}

/// Cached prompt tokens; always zero here.
#[derive(Clone, Copy, Debug)]
pub struct PromptTokensDetails {
    pub cached_tokens: u32,
}

/// Usage block of a chat completion.
#[derive(Clone, Copy, Debug)]
pub struct Usage {
    pub prompt_tokens: u32,
    pub completion_tokens: u32,
    pub total_tokens: u32,
    pub prompt_tokens_details: PromptTokensDetails,
}

impl Usage {
    /// The usage block for a tally.
    pub fn from_tally(t: TokenUsage) -> (r: Self)
        ensures
            r.prompt_tokens == t.input_tokens,
            r.completion_tokens == t.output_tokens,
            r.total_tokens == t.total_tokens,
            r.prompt_tokens_details.cached_tokens == 0,
    {
        Usage {
            prompt_tokens: t.input_tokens,
            completion_tokens: t.output_tokens,
            total_tokens: t.total_tokens,
            prompt_tokens_details: PromptTokensDetails { cached_tokens: 0 },
        }
    }
}

/// The wire label of a finish reason.
pub open spec fn finish_label(r: FinishReason) -> Seq<char> {
    match r {
        FinishReason::Stop => seq!['s', 't', 'o', 'p'],
        FinishReason::ToolCall => seq!['t', 'o', 'o', 'l', '_', 'c', 'a', 'l', 'l', 's'],
    }
}

/// `stop` or `tool_calls`.
pub fn finish_reason(r: FinishReason) -> (s: &'static str)
    ensures
        s@ == finish_label(r),
{
    proof {
        reveal_strlit("stop");
        reveal_strlit("tool_calls");
    }
    match r {
        FinishReason::Stop => "stop",
        FinishReason::ToolCall => "tool_calls",
    }
}

} // verus!
