//! The provider-neutral completion: content items, finish reason and token
//! usage, built from a request and the fake-content producer.

use vstd::prelude::*;
use vstd::string::*;
use vstd::utf8::encode_utf8;

use crate::errors::Provider;
use crate::generator::{
    spec_completion_id, spec_fingerprint, spec_paragraph, spec_tool_call_id, token_estimate, zero_padded, hex_digits,
    ContentGenerator,
};
use crate::intent::{argument_for, extract_argument, has_trigger, lower_of, should_call_tool, wants_tool_call};
use crate::request::{count_input_tokens, input_token_count, last_text, last_turn_text, sat32, saturating_sum, ChatRequest};
use crate::text::seq_contains;

verus! {

/// Why generation ended.
#[derive(Clone, Copy, Debug, PartialEq, Eq, Structural)]
pub enum FinishReason {
    /// Normal completion.
    Stop,
    /// A tool invocation is requested.
    ToolCall,
}

/// Token tally of a response.
#[derive(Clone, Copy, Debug, PartialEq, Eq, Structural)]
pub struct TokenUsage {
    pub input_tokens: u32,
    pub output_tokens: u32,
    pub total_tokens: u32,
}

/// One content item of a completion.
pub enum ContentItem {
    /// A reasoning block with its opaque signature.
    Reasoning { text: String, signature: String },
    /// Assistant text; `id` names the output item where the wire format has one.
    Text { id: String, text: String },
    /// A tool invocation with its single string argument.
    ToolCall { id: String, call_id: String, name: String, argument: String },
}

/// A single-shot response.
pub struct Completion {
    pub id: String,
    pub fingerprint: String,
    pub model: String,
    pub items: Vec<ContentItem>,
    pub finish: FinishReason,
    pub usage: TokenUsage,
}

/// Whether `item` invokes the tool `name` with the argument `argument`.
pub open spec fn calls_tool(item: ContentItem, name: Seq<char>, argument: Seq<char>) -> bool {
    match item {
        ContentItem::ToolCall { name: n, argument: a, .. } => n@ == name && a@ == argument,
        _ => false,
    }
}

/// Output tokens counted for a tool invocation, whose arguments are not run
/// through the estimate.
pub open spec fn tool_call_token_cost(p: Provider) -> u32 {
    match p {
        Provider::Claude => 50,
        Provider::Gemini => 12,
        Provider::Cerebras => 15,
        Provider::OpenAI => 15,
    }
}

/// Output tokens counted for a tool invocation by provider `p`.
pub fn tool_call_tokens(p: Provider) -> (r: u32)
    ensures
        r == tool_call_token_cost(p),
{
    match p {
        Provider::Claude => 50,
        Provider::Gemini => 12,
        Provider::Cerebras => 15,
        Provider::OpenAI => 15,
    }
}

/// Whether the provider has a reasoning block before the answer.
pub open spec fn supports_reasoning(p: Provider) -> bool {
    p == Provider::Claude
}

/// Whether a response to `req` carries a reasoning block.
pub open spec fn wants_reasoning(req: ChatRequest) -> bool {
    supports_reasoning(req.provider) && req.thinking_budget is Some
}

/// Whether a response to `req` is a tool invocation.
pub open spec fn wants_tool(req: ChatRequest) -> bool {
    wants_tool_call(last_turn_text(req.turns@), req.tool_names@.len())
}

/// The finish reason of a response to `req`.
pub open spec fn finish_for(req: ChatRequest) -> FinishReason {
    if wants_tool(req) {
        FinishReason::ToolCall
    } else {
        FinishReason::Stop
    }
}

/// The usage tally for `input` and `output` tokens; the total saturates.
pub open spec fn usage_of(input: nat, output: nat) -> TokenUsage {
    TokenUsage {
        input_tokens: input as u32,
        output_tokens: output as u32,
        total_tokens: sat32(input + output) as u32,
    }
}

/// Usage with a total that is the sum of input and output (saturated).
pub fn make_usage(input_tokens: u32, output_tokens: u32) -> (r: TokenUsage)
    ensures
        r == usage_of(input_tokens as nat, output_tokens as nat),
{
    TokenUsage { input_tokens, output_tokens, total_tokens: saturating_sum(input_tokens, output_tokens) }
}

/// `prefix` followed by a tool-call identifier drawn from state `s`, and the
/// next state.
pub open spec fn spec_prefixed_id(prefix: Seq<char>, s: u64) -> (Seq<char>, u64) {
    let (t, next) = spec_tool_call_id(s);
    (prefix + t, next)
}

/// The identifier of a response drawn from state `s`, and the next state.
pub open spec fn spec_response_id(p: Provider, s: u64) -> (Seq<char>, u64) {
    match p {
        Provider::Cerebras => spec_completion_id(s),
        Provider::Claude => spec_prefixed_id(seq!['m', 's', 'g', '_'], s),
        Provider::OpenAI => spec_prefixed_id(seq!['r', 'e', 's', 'p', '_'], s),
        Provider::Gemini => (Seq::empty(), s),
    }
}

/// The identifiers of a tool invocation drawn from state `s` (item id, call
/// id), and the next state: a bare hex identifier for the chat-completions
/// shape, `toolu_` and one for Anthropic, `fc_` and `call_` ones for OpenAI,
/// none for Gemini.
pub open spec fn spec_tool_ids(p: Provider, s: u64) -> (Seq<char>, Seq<char>, u64) {
    match p {
        Provider::Cerebras => {
            let (id, next) = spec_tool_call_id(s);
            (id, Seq::empty(), next)
        },
        Provider::Claude => {
            let (id, next) = spec_prefixed_id(seq!['t', 'o', 'o', 'l', 'u', '_'], s);
            (id, Seq::empty(), next)
        },
        Provider::Gemini => (Seq::empty(), Seq::empty(), s),
        Provider::OpenAI => {
            let (id, s1) = spec_prefixed_id(seq!['f', 'c', '_'], s);
            let (call, s2) = spec_prefixed_id(seq!['c', 'a', 'l', 'l', '_'], s1);
            (id, call, s2)
        },
    }
}

/// `prefix` followed by a tool-call identifier from the producer.
pub(crate) fn prefixed_id(gen: &mut ContentGenerator, prefix: &str) -> (r: String)
    ensures
        (r@, final(gen).rng_state) == spec_prefixed_id(prefix@, old(gen).rng_state),
        r@.len() > prefix@.len(),
        r@.subrange(0, prefix@.len() as int) == prefix@,
        final(gen).tokens_per_chunk == old(gen).tokens_per_chunk,
{
    let mut out = String::from_str(prefix);
    let tail = gen.tool_call_id();
    out.append(tail.as_str());
    assert(out@.subrange(0, prefix@.len() as int) =~= prefix@);
    out
}

/// The identifier of a response: a chat completion identifier for the
/// chat-completions shape, `msg_` or `resp_` and a hex identifier for
/// Anthropic and OpenAI, none for Gemini.
pub fn response_id(gen: &mut ContentGenerator, p: Provider) -> (r: String)
    ensures
        (r@, final(gen).rng_state) == spec_response_id(p, old(gen).rng_state),
        final(gen).tokens_per_chunk == old(gen).tokens_per_chunk,
        p == Provider::Gemini ==> r@.len() == 0,
        p == Provider::Cerebras ==> r@.len() == 45 && r@.subrange(0, 9) == "chatcmpl-"@,
        p == Provider::Claude ==> r@.len() > 4 && r@.subrange(0, 4) == "msg_"@,
        p == Provider::OpenAI ==> r@.len() > 5 && r@.subrange(0, 5) == "resp_"@,
{
    proof {
        reveal_strlit("msg_");
        reveal_strlit("resp_");
    }
    assert("msg_"@ =~= seq!['m', 's', 'g', '_']);
    assert("resp_"@ =~= seq!['r', 'e', 's', 'p', '_']);
    match p {
        Provider::Cerebras => gen.completion_id(),
        Provider::Claude => prefixed_id(gen, "msg_"),
        Provider::OpenAI => prefixed_id(gen, "resp_"),
        Provider::Gemini => String::new(),
    }
}

/// Two hex digits of the code of the first character of `id`.
pub open spec fn signature_pair(id: Seq<char>) -> Seq<char> {
    zero_padded(hex_digits(((id[0] as u64) % 256) as nat), 2)
}

/// The hex pairs of `k` signature draws from state `s`, and the next state.
pub open spec fn spec_signature_pairs(s: u64, k: nat) -> (Seq<char>, u64)
    decreases k,
{
    if k == 0 {
        (Seq::empty(), s)
    } else {
        let (prev, s1) = spec_signature_pairs(s, (k - 1) as nat);
        let (id, s2) = spec_tool_call_id(s1);
        (prev + signature_pair(id), s2)
    }
}

/// A reasoning signature drawn from state `s`: `EtUB`, forty hex pairs, `==`;
/// and the next state.
pub open spec fn spec_signature(s: u64) -> (Seq<char>, u64) {
    let (pairs, next) = spec_signature_pairs(s, 40);
    (seq!['E', 't', 'U', 'B'] + pairs + seq!['=', '='], next)
}

/// An opaque reasoning signature: `EtUB`, forty pairs of hex digits, `==`.
pub fn generate_signature(gen: &mut ContentGenerator) -> (r: String)
    ensures
        (r@, final(gen).rng_state) == spec_signature(old(gen).rng_state),
        r@.len() == 86,
        r@.subrange(0, 4) == "EtUB"@,
        r@.subrange(84, 86) == "=="@,
        final(gen).tokens_per_chunk == old(gen).tokens_per_chunk,
{
    let ghost s0 = gen.rng_state;
    let mut sig = String::from_str("EtUB");
    proof {
        reveal_strlit("EtUB");
        reveal_strlit("==");
    }
    assert("EtUB"@ =~= seq!['E', 't', 'U', 'B']);
    assert("=="@ =~= seq!['=', '=']);
    let mut k: usize = 0;
    while k < 40
        invariant
            k <= 40,
            sig@.len() == 4 + 2 * k,
            sig@ == seq!['E', 't', 'U', 'B'] + spec_signature_pairs(s0, k as nat).0,
            gen.rng_state == spec_signature_pairs(s0, k as nat).1,
            gen.tokens_per_chunk == old(gen).tokens_per_chunk,
        decreases 40 - k,
    {
        let id = gen.tool_call_id();
        let first: u64 = id.as_str().get_char(0) as u64;
        let pair = crate::generator::hex_pair(first % 256);
        let ghost before = sig@;
        sig.append(pair.as_str());
        proof {
            let prev = spec_signature_pairs(s0, k as nat).0;
            assert(pair@ == signature_pair(id@));
            assert(sig@ =~= seq!['E', 't', 'U', 'B'] + (prev + signature_pair(id@)));
        }
        k = k + 1;
    }
    sig.append("==");
    proof {
        assert(sig@.subrange(0, 4) =~= "EtUB"@);
        assert(sig@.subrange(84, 86) =~= "=="@);
    }
    sig
}

/// The tool invocation item for `req`: the first declared tool, called with
/// the argument drawn from the last user text.
pub(crate) fn tool_item(gen: &mut ContentGenerator, req: &ChatRequest) -> (r: ContentItem)
    requires
        req.tool_names@.len() > 0,
    ensures
        calls_tool(r, req.tool_names@[0]@, argument_for(last_turn_text(req.turns@))),
        (r->ToolCall_id@, r->ToolCall_call_id@, final(gen).rng_state) == spec_tool_ids(
            req.provider,
            old(gen).rng_state,
        ),
        final(gen).tokens_per_chunk == old(gen).tokens_per_chunk,
{
    let name = req.tool_names[0].clone();
    let text = last_text(&req.turns);
    let arg = match text {
        Some(t) => extract_argument(Some(t.as_str())),
        None => extract_argument(None),
    };
    proof {
        reveal_strlit("toolu_");
        reveal_strlit("fc_");
        reveal_strlit("call_");
    }
    assert("toolu_"@ =~= seq!['t', 'o', 'o', 'l', 'u', '_']);
    assert("fc_"@ =~= seq!['f', 'c', '_']);
    assert("call_"@ =~= seq!['c', 'a', 'l', 'l', '_']);
    let (id, call_id) = match req.provider {
        Provider::Cerebras => (gen.tool_call_id(), String::new()),
        Provider::Claude => (prefixed_id(gen, "toolu_"), String::new()),
        Provider::Gemini => (String::new(), String::new()),
        Provider::OpenAI => {
            let id = prefixed_id(gen, "fc_");
            let call = prefixed_id(gen, "call_");
            (id, call)
        },
    };
    ContentItem::ToolCall { id, call_id, name, argument: arg }
}

/// Whether the request's last user text and declared tools call for a tool
/// invocation.
pub fn request_wants_tool(req: &ChatRequest) -> (r: bool)
    ensures
        r == wants_tool(*req),
{
    if req.tool_names.len() == 0 {
        return false;
    }
    let text = last_text(&req.turns);
    match text {
        Some(t) => should_call_tool(Some(t.as_str())),
        None => should_call_tool(None),
    }
}

/// The tool-invocation rule: with at least one declared tool, a last user text
/// whose lower case holds "weather" makes the response a tool invocation (the
/// `ToolCall` finish reason, and a single tool item, the last one); a last
/// user text whose lower case holds no trigger word makes it a text answer
/// with the `Stop` finish reason, whatever tools were declared.
pub proof fn lemma_tool_rule(req: ChatRequest)
    ensures
        req.tool_names@.len() > 0 && last_turn_text(req.turns@) is Some && seq_contains(
            encode_utf8(lower_of(last_turn_text(req.turns@)->0)),
            "weather".spec_bytes(),
        ) ==> wants_tool(req) && finish_for(req) == FinishReason::ToolCall,
        last_turn_text(req.turns@) is Some && !has_trigger(lower_of(last_turn_text(req.turns@)->0))
            ==> !wants_tool(req) && finish_for(req) == FinishReason::Stop,
{
}

/// The identifier and fingerprint of a response drawn from state `s` (the
/// fingerprint only for the chat-completions shape), and the next state.
pub open spec fn spec_header(p: Provider, s: u64) -> (Seq<char>, Seq<char>, u64) {
    let (id, s1) = spec_response_id(p, s);
    if p == Provider::Cerebras {
        let (fp, s2) = spec_fingerprint(s1);
        (id, fp, s2)
    } else {
        (id, Seq::empty(), s1)
    }
}

/// The identifier of a text output item drawn from state `s` (only OpenAI
/// has one), and the next state.
pub open spec fn spec_text_item_id(p: Provider, s: u64) -> (Seq<char>, u64) {
    if p == Provider::OpenAI {
        spec_prefixed_id(seq!['m', 's', 'g', '_'], s)
    } else {
        (Seq::empty(), s)
    }
}

/// The state from which a single-shot answer block is drawn: after the
/// header and, when requested, the reasoning paragraph and its signature.
pub open spec fn completion_answer_start(req: ChatRequest, s: u64) -> u64 {
    let h = spec_header(req.provider, s).2;
    if wants_reasoning(req) {
        spec_signature(spec_paragraph(h).1).1
    } else {
        h
    }
}

/// The state after a single-shot response to `req` drawn from state `s`.
pub open spec fn completion_end(req: ChatRequest, s: u64) -> u64 {
    let a = completion_answer_start(req, s);
    if wants_tool(req) {
        spec_tool_ids(req.provider, a).2
    } else {
        spec_paragraph(spec_text_item_id(req.provider, a).1).1
    }
}

/// The single-shot response to `req`: an optional reasoning block, then either
/// one tool invocation (finish reason `ToolCall`) or one paragraph of text
/// (finish reason `Stop`); input tokens count the request's text, output
/// tokens the reasoning text plus the answer text or the fixed tool-call cost.
pub fn build_completion(gen: &mut ContentGenerator, req: &ChatRequest) -> (r: Completion)
    ensures
        r.model@ == req.model@,
        r.finish == finish_for(*req),
        r.items@.len() == if wants_reasoning(*req) { 2int } else { 1int },
        wants_reasoning(*req) ==> r.items@[0] is Reasoning,
        forall|k: int| 0 <= k < r.items@.len() - 1 ==> #[trigger] r.items@[k] is Reasoning,
        wants_tool(*req) ==> calls_tool(
            r.items@.last(),
            req.tool_names@[0]@,
            argument_for(last_turn_text(req.turns@)),
        ),
        !wants_tool(*req) ==> r.items@.last() is Text,
        r.usage.input_tokens == input_token_count(*req),
        r.usage.output_tokens == sat32(
            (if wants_reasoning(*req) { token_estimate(r.items@[0]->Reasoning_text@) } else { 0 }) + (
            if wants_tool(*req) {
                tool_call_token_cost(req.provider) as nat
            } else {
                token_estimate(r.items@.last()->Text_text@)
            }),
        ),
        r.usage.total_tokens == sat32(r.usage.input_tokens as nat + r.usage.output_tokens as nat),
        r.id@ == spec_header(req.provider, old(gen).rng_state).0,
        r.fingerprint@ == spec_header(req.provider, old(gen).rng_state).1,
        req.provider == Provider::Cerebras ==> r.id@.subrange(0, 9) == "chatcmpl-"@
            && r.fingerprint@.subrange(0, 3) == "fp_"@,
        wants_reasoning(*req) ==> r.items@[0]->Reasoning_text@ == spec_paragraph(
            spec_header(req.provider, old(gen).rng_state).2,
        ).0 && r.items@[0]->Reasoning_signature@ == spec_signature(
            spec_paragraph(spec_header(req.provider, old(gen).rng_state).2).1,
        ).0,
        wants_reasoning(*req) ==> r.items@[0]->Reasoning_signature@.len() == 86
            && r.items@[0]->Reasoning_signature@.subrange(0, 4) == "EtUB"@
            && r.items@[0]->Reasoning_signature@.subrange(84, 86) == "=="@,
        wants_tool(*req) ==> (r.items@.last()->ToolCall_id@, r.items@.last()->ToolCall_call_id@)
            == (
            spec_tool_ids(req.provider, completion_answer_start(*req, old(gen).rng_state)).0,
            spec_tool_ids(req.provider, completion_answer_start(*req, old(gen).rng_state)).1,
        ),
        !wants_tool(*req) ==> r.items@.last()->Text_id@ == spec_text_item_id(
            req.provider,
            completion_answer_start(*req, old(gen).rng_state),
        ).0 && r.items@.last()->Text_text@ == spec_paragraph(
            spec_text_item_id(req.provider, completion_answer_start(*req, old(gen).rng_state)).1,
        ).0 && r.items@.last()->Text_text@.len() > 0,
        final(gen).rng_state == completion_end(*req, old(gen).rng_state),
        final(gen).tokens_per_chunk == old(gen).tokens_per_chunk,
{
    let ghost s0 = gen.rng_state;
    let id = response_id(gen, req.provider);
    let fingerprint = match req.provider {
        Provider::Cerebras => gen.fingerprint(),
        _ => String::new(),
    };
    assert(gen.rng_state == spec_header(req.provider, s0).2);
    let input_tokens = count_input_tokens(req);
    let wants_tool_call = request_wants_tool(req);
    let mut items: Vec<ContentItem> = Vec::new();
    let mut output_tokens: u32 = 0;
    let reasoning = match req.provider {
        Provider::Claude => req.thinking_budget.is_some(),
        _ => false,
    };
    let ghost mut reasoning_tokens: nat = 0;
    if reasoning {
        let text = gen.paragraph();
        let t = ContentGenerator::estimate_tokens(text.as_str());
        output_tokens = t;
        let signature = generate_signature(gen);
        proof {
            reasoning_tokens = token_estimate(text@);
        }
        items.push(ContentItem::Reasoning { text, signature });
    }
    assert(gen.rng_state == completion_answer_start(*req, s0));
    let finish = if wants_tool_call {
        let item = tool_item(gen, req);
        output_tokens = saturating_sum(output_tokens, tool_call_tokens(req.provider));
        items.push(item);
        FinishReason::ToolCall
    } else {
        proof {
            reveal_strlit("msg_");
            assert("msg_"@ =~= seq!['m', 's', 'g', '_']);
        }
        let item_id = match req.provider {
            Provider::OpenAI => prefixed_id(gen, "msg_"),
            _ => String::new(),
        };
        let text = gen.paragraph();
        let t = ContentGenerator::estimate_tokens(text.as_str());
        output_tokens = saturating_sum(output_tokens, t);
        items.push(ContentItem::Text { id: item_id, text });
        FinishReason::Stop
    };
    let usage = make_usage(input_tokens, output_tokens);
    Completion { id, fingerprint, model: req.model.clone(), items, finish, usage }
}

} // verus!
