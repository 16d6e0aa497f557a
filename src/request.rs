//! The provider-neutral request: the conversation, its last user text and its
//! input-token count.

use vstd::prelude::*;
use vstd::string::*;

use crate::errors::Provider;
use crate::generator::{token_estimate, ContentGenerator};
use crate::text::str_equal;

verus! {

/// One part of a turn.
pub enum Part {
    /// Plain text.
    Text(String),
    /// A reasoning ("thinking") block.
    Reasoning(String),
    /// A tool invocation, a tool result or another non-text block.
    Other,
}

/// One turn of the conversation.
pub struct Turn {
    pub role: String,
    pub parts: Vec<Part>,
}

/// A request as every provider emulation sees it.
pub struct ChatRequest {
    pub provider: Provider,
    pub model: String,
    /// System prompt or instructions.
    pub system: Option<String>,
    pub turns: Vec<Turn>,
    pub max_tokens: Option<u32>,
    /// Names of the declared tools or functions, in declaration order.
    pub tool_names: Vec<String>,
    /// Reasoning budget, when a reasoning block was requested.
    pub thinking_budget: Option<u32>,
    /// Whether the final stream fragment carries the usage tally.
    pub include_usage: bool,
    pub stream: bool,
}

/// `n` saturated at `u32::MAX`.
pub open spec fn sat32(n: nat) -> nat {
    if n > u32::MAX {
        u32::MAX as nat
    } else {
        n
    }
}

/// `a + b` saturated at `u32::MAX`.
pub fn saturating_sum(a: u32, b: u32) -> (r: u32)
    ensures
        r as nat == sat32(a as nat + b as nat),
{
    if a > u32::MAX - b {
        u32::MAX
    } else {
        a + b
    }
}

/// The text of the first text part, if any.
pub open spec fn first_text(parts: Seq<Part>) -> Option<Seq<char>>
    decreases parts.len(),
{
    if parts.len() == 0 {
        None
    } else {
        match first_text(parts.drop_last()) {
            Some(t) => Some(t),
            None => match parts.last() {
                Part::Text(t) => Some(t@),
                _ => None,
            },
        }
    }
}

/// The role of a user turn.
pub open spec fn user_role() -> Seq<char> {
    seq!['u', 's', 'e', 'r']
}

/// The text of the most recent user turn: its first text part.
pub open spec fn last_turn_text(turns: Seq<Turn>) -> Option<Seq<char>>
    decreases turns.len(),
{
    if turns.len() == 0 {
        None
    } else if turns.last().role@ == user_role() {
        first_text(turns.last().parts@)
    } else {
        last_turn_text(turns.drop_last())
    }
}

/// Tokens of one part: text and reasoning parts count, others do not.
pub open spec fn part_tokens(p: Part) -> nat {
    match p {
        Part::Text(t) => token_estimate(t@),
        Part::Reasoning(t) => token_estimate(t@),
        Part::Other => 0,
    }
}

/// Tokens of a list of parts.
pub open spec fn parts_tokens(parts: Seq<Part>) -> nat
    decreases parts.len(),
{
    if parts.len() == 0 {
        0
    } else {
        parts_tokens(parts.drop_last()) + part_tokens(parts.last())
    }
}

/// Tokens of a list of turns.
pub open spec fn turns_tokens(turns: Seq<Turn>) -> nat
    decreases turns.len(),
{
    if turns.len() == 0 {
        0
    } else {
        turns_tokens(turns.drop_last()) + parts_tokens(turns.last().parts@)
    }
}

/// Tokens of the optional system text.
pub open spec fn system_tokens(system: Option<String>) -> nat {
    match system {
        Some(s) => token_estimate(s@),
        None => 0,
    }
}

/// Input tokens of a request: the estimates of the system text and of every
/// text-bearing part of every turn, added up (saturated at `u32::MAX`).
pub open spec fn input_token_count(req: ChatRequest) -> nat {
    sat32(system_tokens(req.system) + turns_tokens(req.turns@))
}

/// The text of the first text part of `parts`.
pub fn first_text_of(parts: &Vec<Part>) -> (r: Option<&String>)
    ensures
        match r {
            Some(t) => first_text(parts@) == Some(t@),
            None => first_text(parts@) is None,
        },
{
    let mut i: usize = 0;
    while i < parts.len()
        invariant
            i <= parts@.len(),
            first_text(parts@.take(i as int)) is None,
        decreases parts@.len() - i,
    {
        assert(parts@.take(i + 1).drop_last() =~= parts@.take(i as int));
        match &parts[i] {
            Part::Text(t) => {
                proof {
                    lemma_first_text_prefix(parts@, i as int + 1);
                }
                return Some(t);
            },
            _ => {},
        }
        i = i + 1;
    }
    assert(parts@.take(i as int) =~= parts@);
    None
}

/// Once a prefix has a text part, the whole list has the same first text.
proof fn lemma_first_text_prefix(parts: Seq<Part>, k: int)
    requires
        0 <= k <= parts.len(),
        first_text(parts.take(k)) is Some,
    ensures
        first_text(parts) == first_text(parts.take(k)),
    decreases parts.len() - k,
{
    if k < parts.len() {
        assert(parts.take(k + 1).drop_last() =~= parts.take(k));
        lemma_first_text_prefix(parts, k + 1);
    } else {
        assert(parts.take(k) =~= parts);
    }
}

/// The text of the most recent user turn, if it has a text part.
pub fn last_text(turns: &Vec<Turn>) -> (r: Option<&String>)
    ensures
        match r {
            Some(t) => last_turn_text(turns@) == Some(t@),
            None => last_turn_text(turns@) is None,
        },
{
    proof {
        reveal_strlit("user");
    }
    assert("user"@ =~= user_role());
    let mut end = turns.len();
    assert(turns@.take(end as int) =~= turns@);
    while end > 0
        invariant
            end <= turns@.len(),
            "user"@ == user_role(),
            last_turn_text(turns@.take(end as int)) == last_turn_text(turns@),
        decreases end,
    {
        let ghost prefix = turns@.take(end as int);
        assert(prefix.drop_last() =~= turns@.take(end - 1));
        assert(prefix.last() == turns@[end - 1]);
        if str_equal(turns[end - 1].role.as_str(), "user") {
            return first_text_of(&turns[end - 1].parts);
        }
        end = end - 1;
    }
    None
}

fn count_part_tokens(parts: &Vec<Part>) -> (r: u32)
    ensures
        r as nat == sat32(parts_tokens(parts@)),
{
    let mut acc: u32 = 0;
    let mut i: usize = 0;
    while i < parts.len()
        invariant
            i <= parts@.len(),
            acc as nat == sat32(parts_tokens(parts@.take(i as int))),
        decreases parts@.len() - i,
    {
        let t: u32 = match &parts[i] {
            Part::Text(t) => ContentGenerator::estimate_tokens(t.as_str()),
            Part::Reasoning(t) => ContentGenerator::estimate_tokens(t.as_str()),
            Part::Other => 0,
        };
        assert(parts@.take(i + 1).drop_last() =~= parts@.take(i as int));
        acc = saturating_sum(acc, t);
        i = i + 1;
    }
    assert(parts@.take(i as int) =~= parts@);
    acc
}

/// Input tokens of a request: the system text and every text-bearing part
/// of every turn.
pub fn count_input_tokens(req: &ChatRequest) -> (r: u32)
    ensures
        r as nat == input_token_count(*req),
{
    let mut acc: u32 = match &req.system {
        Some(s) => ContentGenerator::estimate_tokens(s.as_str()),
        None => 0,
    };
    let mut i: usize = 0;
    while i < req.turns.len()
        invariant
            i <= req.turns@.len(),
            acc as nat == sat32(system_tokens(req.system) + turns_tokens(req.turns@.take(i as int))),
        decreases req.turns@.len() - i,
    {
        let t = count_part_tokens(&req.turns[i].parts);
        assert(req.turns@.take(i + 1).drop_last() =~= req.turns@.take(i as int));
        acc = saturating_sum(acc, t);
        i = i + 1;
    }
    assert(req.turns@.take(i as int) =~= req.turns@);
    acc
}

} // verus!
