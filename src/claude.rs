//! The Anthropic Messages shape.

use vstd::prelude::*;

use crate::response::{FinishReason, TokenUsage};

verus! {

/// Extended-thinking settings of a request.
#[derive(Clone, Debug)]
pub struct ThinkingConfig {
    pub thinking_type: String,
    pub budget_tokens: u32,
}

/// Usage block of a message; the cache counts are present and zero.
#[derive(Clone, Copy, Debug)]
pub struct Usage {
    pub input_tokens: u32,
    pub output_tokens: u32,
    pub cache_creation_input_tokens: Option<u32>,
    pub cache_read_input_tokens: Option<u32>,
}

impl Usage {
    /// The usage block for a tally.
    pub fn from_tally(t: TokenUsage) -> (r: Self)
        ensures
            r.input_tokens == t.input_tokens,
            r.output_tokens == t.output_tokens,
            r.cache_creation_input_tokens == Some(0u32),
            r.cache_read_input_tokens == Some(0u32),
    {
        Usage {
            input_tokens: t.input_tokens,
            output_tokens: t.output_tokens,
            cache_creation_input_tokens: Some(0),
            cache_read_input_tokens: Some(0),
        }
    }
}

/// The wire label of a stop reason.
pub open spec fn stop_label(r: FinishReason) -> Seq<char> {
    match r {
        FinishReason::Stop => seq!['e', 'n', 'd', '_', 't', 'u', 'r', 'n'],
        FinishReason::ToolCall => seq!['t', 'o', 'o', 'l', '_', 'u', 's', 'e'],
    }
}

/// `end_turn` or `tool_use`.
pub fn stop_reason(r: FinishReason) -> (s: &'static str)
    ensures
        s@ == stop_label(r),
{
    proof {
        reveal_strlit("end_turn");
        reveal_strlit("tool_use");
    }
    match r {
        FinishReason::Stop => "end_turn",
        FinishReason::ToolCall => "tool_use",
    }
}

} // verus!
