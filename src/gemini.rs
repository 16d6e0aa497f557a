//! The Gemini generateContent shape, and the `model:action` path segment.

use vstd::prelude::*;

use crate::response::TokenUsage;
use crate::text::{chars_of, str_equal};

verus! {

/// Usage block of a response.
#[derive(Clone, Copy, Debug)]
pub struct UsageMetadata {
    pub prompt_token_count: u32,
    pub candidates_token_count: u32,
    pub total_token_count: u32,
    pub cached_content_token_count: Option<u32>,
}

impl UsageMetadata {
    /// The usage block for a tally.
    pub fn from_tally(t: TokenUsage) -> (r: Self)
        ensures
            r.prompt_token_count == t.input_tokens,
            r.candidates_token_count == t.output_tokens,
            r.total_token_count == t.total_tokens,
            r.cached_content_token_count is None,
    {
        UsageMetadata {
            prompt_token_count: t.input_tokens,
            candidates_token_count: t.output_tokens,
            total_token_count: t.total_tokens,
            cached_content_token_count: None,
        }
    }
}

/// What the action after the last colon asks for.
#[derive(Clone, Copy, Debug, PartialEq, Eq, Structural)]
pub enum ModelAction {
    Generate,
    StreamGenerate,
    Unknown,
}

/// Position of the last `:` in `s`, if any.
pub open spec fn last_colon(s: Seq<char>) -> Option<int>
    decreases s.len(),
{
    if s.len() == 0 {
        None
    } else if s.last() == ':' {
        Some(s.len() - 1)
    } else {
        last_colon(s.drop_last())
    }
}

/// The action named by `a`.
pub open spec fn action_of(a: Seq<char>) -> ModelAction {
    if a == "generateContent"@ {
        ModelAction::Generate
    } else if a == "streamGenerateContent"@ {
        ModelAction::StreamGenerate
    } else {
        ModelAction::Unknown
    }
}

/// Splits a `model:action` path segment at its last colon; `None` when it
/// has no colon.
pub fn parse_model_action(segment: &str) -> (r: Option<(String, ModelAction)>)
    ensures
        match last_colon(segment@) {
            None => r is None,
            Some(i) => r matches Some((m, a)) && m@ == segment@.subrange(0, i) && a == action_of(
                segment@.subrange(i + 1, segment@.len() as int),
            ),
        },
{
    let cs = chars_of(segment);
    let mut end = cs.len();
    assert(cs@.take(end as int) =~= cs@);
    while end > 0 && cs[end - 1] != ':'
        invariant
            cs@ == segment@,
            end <= cs@.len(),
            last_colon(cs@.take(end as int)) == last_colon(cs@),
        decreases end,
    {
        assert(cs@.take(end as int).drop_last() =~= cs@.take(end - 1));
        end = end - 1;
    }
    if end == 0 {
        assert(cs@.take(0) =~= Seq::<char>::empty());
        return None;
    }
    assert(cs@.take(end as int).last() == cs@[end - 1]);
    let n = cs.len();
    let model = String::from_str(segment.substring_char(0, end - 1));
    let action = segment.substring_char(end, n);
    let kind = if str_equal(action, "generateContent") {
        ModelAction::Generate
    } else if str_equal(action, "streamGenerateContent") {
        ModelAction::StreamGenerate
    } else {
        ModelAction::Unknown
    };
    Some((model, kind))
}

} // verus!
