//! The streaming engine: a response decomposed into an ordered list of
//! fragments, one per server-sent event, with the usage tallied from what is
//! actually streamed.

use vstd::prelude::*;
use vstd::string::*;

use crate::errors::Provider;
use crate::generator::{spec_chunks, texts, token_estimate, with_final_period, ContentGenerator};
use crate::intent::argument_for;
use crate::request::{count_input_tokens, input_token_count, last_turn_text, sat32, saturating_sum, ChatRequest};
use crate::response::{
    finish_for, generate_signature, make_usage, request_wants_tool, response_id, spec_header, spec_signature,
    spec_text_item_id, spec_tool_ids, tool_call_token_cost, tool_call_tokens, tool_item, usage_of,
    wants_reasoning, wants_tool, ContentItem, FinishReason, TokenUsage,
};

verus! {

/// One frame of a streamed response. `index` is the position of the content
/// block the frame belongs to.
pub enum Fragment {
    /// Announces the assistant turn.
    Start,
    /// Opens a reasoning block.
    ReasoningStart { index: u32 },
    /// A piece of reasoning text.
    ReasoningDelta { index: u32, text: String },
    /// The reasoning block's signature.
    SignatureDelta { index: u32, signature: String },
    /// Opens a text block; `item_id` names the output item where the wire
    /// format has one.
    TextStart { index: u32, item_id: String },
    /// A piece of answer text, with the output tokens streamed so far.
    TextDelta { index: u32, text: String, tokens_so_far: u32 },
    /// Opens a tool invocation block, its argument not yet given.
    ToolStart { index: u32, id: String, call_id: String, name: String },
    /// The tool invocation's whole argument.
    ToolDelta { index: u32, id: String, call_id: String, name: String, argument: String },
    /// Closes a block; `text` is the block's whole text (empty for a tool block).
    BlockStop { index: u32, text: String },
    /// The finish reason, and the usage when the caller gets it.
    Finish { reason: FinishReason, usage: Option<TokenUsage> },
    /// The stream terminator.
    Done,
}

/// The kind of a fragment, without its payload.
#[derive(Clone, Copy, Debug, PartialEq, Eq, Structural)]
pub enum FragmentKind {
    Start,
    ReasoningStart,
    ReasoningDelta,
    SignatureDelta,
    TextStart,
    TextDelta,
    ToolStart,
    ToolDelta,
    BlockStop,
    Finish,
    Done,
}

/// The kind of `f`.
pub open spec fn kind_of(f: Fragment) -> FragmentKind {
    match f {
        Fragment::Start => FragmentKind::Start,
        Fragment::ReasoningStart { .. } => FragmentKind::ReasoningStart,
        Fragment::ReasoningDelta { .. } => FragmentKind::ReasoningDelta,
        Fragment::SignatureDelta { .. } => FragmentKind::SignatureDelta,
        Fragment::TextStart { .. } => FragmentKind::TextStart,
        Fragment::TextDelta { .. } => FragmentKind::TextDelta,
        Fragment::ToolStart { .. } => FragmentKind::ToolStart,
        Fragment::ToolDelta { .. } => FragmentKind::ToolDelta,
        Fragment::BlockStop { .. } => FragmentKind::BlockStop,
        Fragment::Finish { .. } => FragmentKind::Finish,
        Fragment::Done => FragmentKind::Done,
    }
}

/// The kinds of a list of fragments, in order.
pub open spec fn kinds(frags: Seq<Fragment>) -> Seq<FragmentKind> {
    frags.map_values(|f: Fragment| kind_of(f))
}

/// `n` fragments of kind `k`.
pub open spec fn repeated(k: FragmentKind, n: nat) -> Seq<FragmentKind> {
    Seq::new(n, |i: int| k)
}

/// A reasoning block of `m` pieces: start, pieces, signature, stop.
pub open spec fn reasoning_shape(m: nat) -> Seq<FragmentKind> {
    seq![FragmentKind::ReasoningStart] + repeated(FragmentKind::ReasoningDelta, m) + seq![
        FragmentKind::SignatureDelta,
        FragmentKind::BlockStop,
    ]
}

/// The answer block: a tool block (start, argument, stop) or a text block of
/// `n` pieces (start, pieces, stop).
pub open spec fn body_shape(tool: bool, n: nat) -> Seq<FragmentKind> {
    if tool {
        seq![FragmentKind::ToolStart, FragmentKind::ToolDelta, FragmentKind::BlockStop]
    } else {
        seq![FragmentKind::TextStart] + repeated(FragmentKind::TextDelta, n) + seq![FragmentKind::BlockStop]
    }
}

/// The order of a whole stream: start, the optional reasoning block, the
/// answer block, finish, terminator.
pub open spec fn stream_shape(reasoning: Option<nat>, tool: bool, n: nat) -> Seq<FragmentKind> {
    seq![FragmentKind::Start] + match reasoning {
        Some(m) => reasoning_shape(m),
        None => Seq::empty(),
    } + body_shape(tool, n) + seq![FragmentKind::Finish, FragmentKind::Done]
}

/// A streamed response: identifiers and the fragments in emission order.
pub struct StreamPlan {
    pub id: String,
    pub fingerprint: String,
    pub model: String,
    pub input_tokens: u32,
    pub fragments: Vec<Fragment>,
}

/// Word budget of the streamed answer: at most 100 for Anthropic (100 when
/// unset), the requested maximum or 50 elsewhere.
pub open spec fn text_budget(p: Provider, max_tokens: Option<u32>) -> nat {
    match p {
        Provider::Claude => match max_tokens {
            Some(m) => if m < 100 { m as nat } else { 100 },
            None => 100,
        },
        _ => match max_tokens {
            Some(m) => m as nat,
            None => 50,
        },
    }
}

/// Word budget of the streamed answer.
pub fn stream_budget(p: Provider, max_tokens: Option<u32>) -> (r: usize)
    ensures
        r as nat == text_budget(p, max_tokens),
{
    match p {
        Provider::Claude => match max_tokens {
            Some(m) => if m < 100 { m as usize } else { 100 },
            None => 100,
        },
        _ => match max_tokens {
            Some(m) => m as usize,
            None => 50,
        },
    }
}

/// Word budget of a streamed reasoning block: the requested budget, at most 100.
pub open spec fn reasoning_budget(budget: Option<u32>) -> nat {
    match budget {
        Some(b) => if b < 100 { b as nat } else { 100 },
        None => 0,
    }
}

/// Whether the final fragment carries the usage: always, except for the
/// chat-completions shape where the caller opts in.
pub open spec fn usage_streamed(req: ChatRequest) -> bool {
    req.provider != Provider::Cerebras || req.include_usage
}

/// Output tokens actually streamed: the estimates of every reasoning and
/// answer text fragment.
pub open spec fn streamed_tokens(frags: Seq<Fragment>) -> nat
    decreases frags.len(),
{
    if frags.len() == 0 {
        0
    } else {
        streamed_tokens(frags.drop_last()) + match frags.last() {
            Fragment::TextDelta { text, .. } => token_estimate(text@),
            Fragment::ReasoningDelta { text, .. } => token_estimate(text@),
            _ => 0,
        }
    }
}

/// The texts of the answer fragments, in order.
pub open spec fn text_deltas(frags: Seq<Fragment>) -> Seq<Seq<char>>
    decreases frags.len(),
{
    if frags.len() == 0 {
        Seq::empty()
    } else {
        let prev = text_deltas(frags.drop_last());
        match frags.last() {
            Fragment::TextDelta { text, .. } => prev.push(text@),
            _ => prev,
        }
    }
}

/// The (tool name, argument) pairs of the tool argument fragments, in order.
pub open spec fn tool_deltas(frags: Seq<Fragment>) -> Seq<(Seq<char>, Seq<char>)>
    decreases frags.len(),
{
    if frags.len() == 0 {
        Seq::empty()
    } else {
        let prev = tool_deltas(frags.drop_last());
        match frags.last() {
            Fragment::ToolDelta { name, argument, .. } => prev.push((name@, argument@)),
            _ => prev,
        }
    }
}

/// Chunks as streamed: a single space in front of every chunk after the first.
pub open spec fn spaced(chunks: Seq<Seq<char>>) -> Seq<Seq<char>> {
    Seq::new(chunks.len(), |i: int| if i == 0 { chunks[i] } else { " "@ + chunks[i] })
}

/// Whether `f` is the final fragment with this reason and usage.
pub open spec fn is_finish(f: Fragment, reason: FinishReason, usage: Option<TokenUsage>) -> bool {
    match f {
        Fragment::Finish { reason: r, usage: u } => r == reason && u == usage,
        _ => false,
    }
}

/// Whether every answer fragment carries the tokens streamed up to and
/// including itself.
pub open spec fn running_totals_hold(frags: Seq<Fragment>) -> bool {
    forall|k: int|
        0 <= k < frags.len() ==> match #[trigger] frags[k] {
            Fragment::TextDelta { tokens_so_far, .. } => tokens_so_far as nat == sat32(
                streamed_tokens(frags.take(k + 1)),
            ),
            _ => true,
        }
}

/// Output tokens reported for a stream: what was streamed, plus the fixed
/// cost of a tool invocation.
pub open spec fn stream_output_tokens(req: ChatRequest, frags: Seq<Fragment>) -> nat {
    sat32(
        streamed_tokens(frags) + if wants_tool(req) {
            tool_call_token_cost(req.provider) as nat
        } else {
            0
        },
    )
}

/// The content block a fragment belongs to (zero for those outside blocks).
pub open spec fn block_index(f: Fragment) -> u32 {
    match f {
        Fragment::ReasoningStart { index } => index,
        Fragment::ReasoningDelta { index, .. } => index,
        Fragment::SignatureDelta { index, .. } => index,
        Fragment::TextStart { index, .. } => index,
        Fragment::TextDelta { index, .. } => index,
        Fragment::ToolStart { index, .. } => index,
        Fragment::ToolDelta { index, .. } => index,
        Fragment::BlockStop { index, .. } => index,
        _ => 0,
    }
}

/// Whether `f` sits in the right block: reasoning fragments in block zero,
/// answer fragments in block `answer`.
pub open spec fn index_fits(f: Fragment, answer: u32) -> bool {
    match kind_of(f) {
        FragmentKind::ReasoningStart | FragmentKind::ReasoningDelta | FragmentKind::SignatureDelta =>
            block_index(f) == 0,
        FragmentKind::TextStart | FragmentKind::TextDelta | FragmentKind::ToolStart | FragmentKind::ToolDelta =>
            block_index(f) == answer,
        _ => true,
    }
}

/// Whether every fragment of `frags` sits in the right block.
pub open spec fn indices_fit(frags: Seq<Fragment>, answer: u32) -> bool {
    forall|k: int| 0 <= k < frags.len() ==> index_fits(#[trigger] frags[k], answer)
}

/// Whether every block-closing fragment of `frags` closes block zero.
pub open spec fn stops_in_first_block(frags: Seq<Fragment>) -> bool {
    forall|k: int| 0 <= k < frags.len() && (#[trigger] frags[k]) is BlockStop ==> block_index(frags[k]) == 0
}

/// The block of the answer: one when a reasoning block comes first.
pub open spec fn answer_block(req: ChatRequest) -> u32 {
    if wants_reasoning(req) {
        1
    } else {
        0
    }
}

/// The concatenation of `parts`.
pub open spec fn joined(parts: Seq<Seq<char>>) -> Seq<char>
    decreases parts.len(),
{
    if parts.len() == 0 {
        Seq::empty()
    } else {
        joined(parts.drop_last()) + parts.last()
    }
}

proof fn lemma_push_index(frags: Seq<Fragment>, f: Fragment, answer: u32)
    requires
        indices_fit(frags, answer),
        index_fits(f, answer),
    ensures
        indices_fit(frags.push(f), answer),
        stops_in_first_block(frags) && (f is BlockStop ==> block_index(f) == 0) ==> stops_in_first_block(
            frags.push(f),
        ),
{
    let g = frags.push(f);
    assert forall|k: int| 0 <= k < g.len() implies index_fits(#[trigger] g[k], answer) by {
        if k < frags.len() {
            assert(g[k] == frags[k]);
        }
    }
    if stops_in_first_block(frags) && (f is BlockStop ==> block_index(f) == 0) {
        assert forall|k: int| 0 <= k < g.len() && (#[trigger] g[k]) is BlockStop implies block_index(g[k]) == 0 by {
            if k < frags.len() {
                assert(g[k] == frags[k]);
            }
        }
    }
}

/// The state from which a stream's answer block is drawn: after the header
/// and, when requested, the reasoning chunks and their signature.
pub open spec fn stream_answer_start(req: ChatRequest, tokens_per_chunk: nat, s: u64) -> u64 {
    let h = spec_header(req.provider, s).2;
    if wants_reasoning(req) {
        spec_signature(spec_chunks(h, reasoning_budget(req.thinking_budget), tokens_per_chunk).1).1
    } else {
        h
    }
}

/// The state from which a stream's answer chunks are drawn.
pub open spec fn stream_text_start(req: ChatRequest, tokens_per_chunk: nat, s: u64) -> u64 {
    spec_text_item_id(req.provider, stream_answer_start(req, tokens_per_chunk, s)).1
}

/// The state after a streamed response to `req` drawn from state `s`.
pub open spec fn stream_end(req: ChatRequest, tokens_per_chunk: nat, s: u64) -> u64 {
    if wants_tool(req) {
        spec_tool_ids(req.provider, stream_answer_start(req, tokens_per_chunk, s)).2
    } else {
        spec_chunks(
            stream_text_start(req, tokens_per_chunk, s),
            text_budget(req.provider, req.max_tokens),
            tokens_per_chunk,
        ).1
    }
}

proof fn lemma_push_fragment(frags: Seq<Fragment>, f: Fragment)
    requires
        running_totals_hold(frags),
        !(f is TextDelta),
    ensures
        running_totals_hold(frags.push(f)),
        streamed_tokens(frags.push(f)) == streamed_tokens(frags) + match f {
            Fragment::ReasoningDelta { text, .. } => token_estimate(text@),
            _ => 0,
        },
        text_deltas(frags.push(f)) == text_deltas(frags),
        tool_deltas(frags.push(f)) == match f {
            Fragment::ToolDelta { name, argument, .. } => tool_deltas(frags).push((name@, argument@)),
            _ => tool_deltas(frags),
        },
{
    let g = frags.push(f);
    assert(g.drop_last() =~= frags);
    assert forall|k: int| 0 <= k < g.len() implies match #[trigger] g[k] {
        Fragment::TextDelta { tokens_so_far, .. } => tokens_so_far as nat == sat32(
            streamed_tokens(g.take(k + 1)),
        ),
        _ => true,
    } by {
        if k < frags.len() {
            assert(g.take(k + 1) =~= frags.take(k + 1));
            assert(g[k] == frags[k]);
        }
    }
}

proof fn lemma_push_text_delta(frags: Seq<Fragment>, f: Fragment)
    requires
        running_totals_hold(frags),
        f matches Fragment::TextDelta { tokens_so_far, text, .. } && tokens_so_far as nat == sat32(
            streamed_tokens(frags) + token_estimate(text@),
        ),
    ensures
        running_totals_hold(frags.push(f)),
        streamed_tokens(frags.push(f)) == streamed_tokens(frags) + token_estimate(f->TextDelta_text@),
        text_deltas(frags.push(f)) == text_deltas(frags).push(f->TextDelta_text@),
        tool_deltas(frags.push(f)) == tool_deltas(frags),
{
    let g = frags.push(f);
    assert(g.drop_last() =~= frags);
    assert forall|k: int| 0 <= k < g.len() implies match #[trigger] g[k] {
        Fragment::TextDelta { tokens_so_far, .. } => tokens_so_far as nat == sat32(
            streamed_tokens(g.take(k + 1)),
        ),
        _ => true,
    } by {
        if k < frags.len() {
            assert(g.take(k + 1) =~= frags.take(k + 1));
            assert(g[k] == frags[k]);
        } else {
            assert(g.take(k + 1) =~= g);
        }
    }
}

/// Streams the chunks of `chunks` as answer fragments of block `index`,
/// returning the running total and the whole text.
fn push_text_deltas(
    frags: &mut Vec<Fragment>,
    chunks: &Vec<String>,
    index: u32,
    streamed: u32,
) -> (r: (u32, String))
    requires
        running_totals_hold(old(frags)@),
        streamed as nat == sat32(streamed_tokens(old(frags)@)),
        indices_fit(old(frags)@, index),
        stops_in_first_block(old(frags)@),
    ensures
        running_totals_hold(final(frags)@),
        indices_fit(final(frags)@, index),
        stops_in_first_block(final(frags)@),
        r.1@ == joined(spaced(texts(chunks@))),
        r.0 as nat == sat32(streamed_tokens(final(frags)@)),
        text_deltas(final(frags)@) == text_deltas(old(frags)@) + spaced(texts(chunks@)),
        tool_deltas(final(frags)@) == tool_deltas(old(frags)@),
        final(frags)@.len() == old(frags)@.len() + chunks@.len(),
        final(frags)@.subrange(0, old(frags)@.len() as int) == old(frags)@,
        kinds(final(frags)@) == kinds(old(frags)@) + repeated(FragmentKind::TextDelta, chunks@.len()),
{
    let ghost start = frags@;
    let mut total = streamed;
    let mut full = String::new();
    let mut i: usize = 0;
    while i < chunks.len()
        invariant
            i <= chunks@.len(),
            running_totals_hold(frags@),
            indices_fit(frags@, index),
            stops_in_first_block(frags@),
            full@ == joined(spaced(texts(chunks@)).take(i as int)),
            total as nat == sat32(streamed_tokens(frags@)),
            text_deltas(frags@) == text_deltas(start) + spaced(texts(chunks@)).take(i as int),
            tool_deltas(frags@) == tool_deltas(start),
            frags@.len() == start.len() + i,
            frags@.subrange(0, start.len() as int) == start,
            kinds(frags@) == kinds(start) + repeated(FragmentKind::TextDelta, i as nat),
        decreases chunks@.len() - i,
    {
        let mut text = if i > 0 {
            String::from_str(" ")
        } else {
            String::new()
        };
        text.append(chunks[i].as_str());
        let t = ContentGenerator::estimate_tokens(text.as_str());
        let next = saturating_sum(total, t);
        assert(text@ == spaced(texts(chunks@))[i as int]) by {
            if i == 0 {
                assert(text@ =~= chunks@[0]@);
            }
        }
        let f = Fragment::TextDelta { index, text: text.clone(), tokens_so_far: next };
        proof {
            lemma_push_text_delta(frags@, f);
            lemma_push_index(frags@, f, index);
            assert(spaced(texts(chunks@)).take(i + 1).drop_last() =~= spaced(texts(chunks@)).take(i as int));
            assert(spaced(texts(chunks@)).take(i + 1) =~= spaced(texts(chunks@)).take(i as int).push(text@));
            assert(kinds(frags@.push(f)) =~= kinds(frags@).push(FragmentKind::TextDelta));
            assert(kinds(start) + repeated(FragmentKind::TextDelta, (i + 1) as nat) =~= (kinds(start)
                + repeated(FragmentKind::TextDelta, i as nat)).push(FragmentKind::TextDelta));
        }
        full.append(text.as_str());
        frags.push(f);
        assert(frags@.subrange(0, start.len() as int) =~= start);
        total = next;
        i = i + 1;
    }
    assert(spaced(texts(chunks@)).take(i as int) =~= spaced(texts(chunks@)));
    assert(full@ == joined(spaced(texts(chunks@))));
    (total, full)
}

/// Pushes a fragment that is not an answer text.
fn push_other(frags: &mut Vec<Fragment>, f: Fragment, Ghost(answer): Ghost<u32>)
    requires
        running_totals_hold(old(frags)@),
        !(f is TextDelta),
        indices_fit(old(frags)@, answer),
        index_fits(f, answer),
    ensures
        final(frags)@ == old(frags)@.push(f),
        indices_fit(final(frags)@, answer),
        stops_in_first_block(old(frags)@) && (f is BlockStop ==> block_index(f) == 0)
            ==> stops_in_first_block(final(frags)@),
        kinds(final(frags)@) == kinds(old(frags)@).push(kind_of(f)),
        running_totals_hold(final(frags)@),
        streamed_tokens(final(frags)@) == streamed_tokens(old(frags)@) + match f {
            Fragment::ReasoningDelta { text, .. } => token_estimate(text@),
            _ => 0,
        },
        text_deltas(final(frags)@) == text_deltas(old(frags)@),
        tool_deltas(final(frags)@) == match f {
            Fragment::ToolDelta { name, argument, .. } => tool_deltas(old(frags)@).push((name@, argument@)),
            _ => tool_deltas(old(frags)@),
        },
{
    proof {
        lemma_push_fragment(frags@, f);
        lemma_push_index(frags@, f, answer);
        assert(kinds(frags@.push(f)) =~= kinds(frags@).push(kind_of(f)));
    }
    frags.push(f);
}

/// The streamed response to `req`: a start fragment; for Anthropic with a
/// reasoning budget a reasoning block (one fragment per chunk of the
/// reasoning budget, then the signature); then either a tool block whose
/// single argument fragment names the first declared tool, or a text block
/// with one fragment per chunk of the answer budget, a single space in front
/// of every chunk after the first; then the finish fragment with the reason
/// and, when the caller gets it, the usage tallied from the streamed text;
/// then the terminator.
#[verifier::rlimit(40)]
#[verifier::spinoff_prover]
pub fn build_stream(gen: &mut ContentGenerator, req: &ChatRequest) -> (r: StreamPlan)
    ensures
        r.model@ == req.model@,
        r.input_tokens == input_token_count(*req),
        r.fragments@.len() >= 4,
        r.fragments@[0] is Start,
        r.fragments@.last() is Done,
        is_finish(
            r.fragments@[r.fragments@.len() - 2],
            finish_for(*req),
            if usage_streamed(*req) {
                Some(usage_of(input_token_count(*req), stream_output_tokens(*req, r.fragments@)))
            } else {
                None
            },
        ),
        running_totals_hold(r.fragments@),
        exists|m: nat|
            kinds(r.fragments@) == stream_shape(
                if wants_reasoning(*req) {
                    Some(m)
                } else {
                    None
                },
                wants_tool(*req),
                text_deltas(r.fragments@).len(),
            ),
        wants_tool(*req) ==> tool_deltas(r.fragments@) == seq![
            (req.tool_names@[0]@, argument_for(last_turn_text(req.turns@))),
        ] && text_deltas(r.fragments@).len() == 0,
        !wants_tool(*req) ==> tool_deltas(r.fragments@).len() == 0 && text_deltas(r.fragments@)
            == spaced(
            with_final_period(
                spec_chunks(
                    stream_text_start(*req, old(gen).tokens_per_chunk as nat, old(gen).rng_state),
                    text_budget(req.provider, req.max_tokens),
                    old(gen).tokens_per_chunk as nat,
                ).0,
            ),
        ),
        indices_fit(r.fragments@, answer_block(*req)),
        r.fragments@[r.fragments@.len() - 3] is BlockStop,
        block_index(r.fragments@[r.fragments@.len() - 3]) == answer_block(*req),
        forall|k: int|
            0 <= k < r.fragments@.len() - 3 && (#[trigger] r.fragments@[k]) is BlockStop ==> block_index(
                r.fragments@[k],
            ) == 0,
        !wants_tool(*req) ==> r.fragments@[r.fragments@.len() - 3]->BlockStop_text@ == joined(
            text_deltas(r.fragments@),
        ),
        r.id@ == spec_header(req.provider, old(gen).rng_state).0,
        r.fingerprint@ == spec_header(req.provider, old(gen).rng_state).1,
        final(gen).rng_state == stream_end(*req, old(gen).tokens_per_chunk as nat, old(gen).rng_state),
        final(gen).tokens_per_chunk == old(gen).tokens_per_chunk,
{
    let ghost s0 = gen.rng_state;
    let ghost tpc = gen.tokens_per_chunk as nat;
    let id = response_id(gen, req.provider);
    let fingerprint = match req.provider {
        Provider::Cerebras => gen.fingerprint(),
        _ => String::new(),
    };
    assert(gen.rng_state == spec_header(req.provider, s0).2);
    let input_tokens = count_input_tokens(req);
    let tool = request_wants_tool(req);
    let reasoning = match req.provider {
        Provider::Claude => req.thinking_budget.is_some(),
        _ => false,
    };
    let index: u32 = if reasoning { 1 } else { 0 };
    let ghost a = index;
    let mut frags: Vec<Fragment> = Vec::new();
    proof {
        assert(running_totals_hold(frags@));
        assert(indices_fit(frags@, a));
        assert(stops_in_first_block(frags@));
    }
    push_other(&mut frags, Fragment::Start, Ghost(a));
    let ghost mut m: nat = 0;
    let ghost mut head: Seq<FragmentKind> = seq![FragmentKind::Start];
    assert(kinds(frags@) =~= head);
    let mut total: u32 = 0;
    if reasoning {
        push_other(&mut frags, Fragment::ReasoningStart { index: 0 }, Ghost(a));
        let budget: usize = match req.thinking_budget {
            Some(b) => if b < 100 { b as usize } else { 100 },
            None => 0,
        };
        assert(budget as nat == reasoning_budget(req.thinking_budget));
        let chunks = gen.stream_chunks(budget);
        let ghost after_chunks = gen.rng_state;
        assert(after_chunks == spec_chunks(spec_header(req.provider, s0).2, reasoning_budget(req.thinking_budget), tpc).1);
        let mut full = String::new();
        let mut i: usize = 0;
        while i < chunks.len()
            invariant
                i <= chunks@.len(),
                gen.rng_state == after_chunks,
                gen.tokens_per_chunk == old(gen).tokens_per_chunk,
                indices_fit(frags@, a),
                stops_in_first_block(frags@),
                frags@.len() >= 1,
                frags@[0] is Start,
                running_totals_hold(frags@),
                total as nat == sat32(streamed_tokens(frags@)),
                text_deltas(frags@).len() == 0,
                tool_deltas(frags@).len() == 0,
                kinds(frags@) == seq![FragmentKind::Start, FragmentKind::ReasoningStart] + repeated(
                    FragmentKind::ReasoningDelta,
                    i as nat,
                ),
            decreases chunks@.len() - i,
        {
            let mut text = if i > 0 {
                String::from_str(" ")
            } else {
                String::new()
            };
            text.append(chunks[i].as_str());
            let t = ContentGenerator::estimate_tokens(text.as_str());
            total = saturating_sum(total, t);
            full.append(text.as_str());
            push_other(&mut frags, Fragment::ReasoningDelta { index: 0, text }, Ghost(a));
            assert(seq![FragmentKind::Start, FragmentKind::ReasoningStart] + repeated(
                FragmentKind::ReasoningDelta,
                (i + 1) as nat,
            ) =~= (seq![FragmentKind::Start, FragmentKind::ReasoningStart] + repeated(
                FragmentKind::ReasoningDelta,
                i as nat,
            )).push(FragmentKind::ReasoningDelta));
            i = i + 1;
        }
        let signature = generate_signature(gen);
        push_other(&mut frags, Fragment::SignatureDelta { index: 0, signature }, Ghost(a));
        push_other(&mut frags, Fragment::BlockStop { index: 0, text: full }, Ghost(a));
        proof {
            m = i as nat;
            head = seq![FragmentKind::Start] + reasoning_shape(m);
            assert(kinds(frags@) =~= head);
        }
    }
    assert(head == seq![FragmentKind::Start] + match (if wants_reasoning(*req) { Some(m) } else { None }) {
        Some(k) => reasoning_shape(k),
        None => Seq::<FragmentKind>::empty(),
    }) by {
        if !wants_reasoning(*req) {
            assert(head =~= seq![FragmentKind::Start] + Seq::<FragmentKind>::empty());
        }
    }
    assert(kinds(frags@) == head);
    assert(gen.rng_state == stream_answer_start(*req, tpc, s0));
    let ghost mut stops_before: Seq<Fragment> = frags@;
    let output: u32;
    let reason: FinishReason;
    if tool {
        let item = tool_item(gen, req);
        match item {
            ContentItem::ToolCall { id: tool_id, call_id, name, argument } => {
                push_other(
                    &mut frags,
                    Fragment::ToolStart {
                        index,
                        id: tool_id.clone(),
                        call_id: call_id.clone(),
                        name: name.clone(),
                    },
                    Ghost(a),
                );
                push_other(&mut frags, Fragment::ToolDelta { index, id: tool_id, call_id, name, argument }, Ghost(a));
            },
            _ => {},
        }
        let ghost pre = frags@;
        push_other(&mut frags, Fragment::BlockStop { index, text: String::new() }, Ghost(a));
        proof {
            stops_before = pre;
        }
        assert(kinds(frags@) =~= head + body_shape(true, 0));
        output = saturating_sum(total, tool_call_tokens(req.provider));
        reason = FinishReason::ToolCall;
    } else {
        proof {
            reveal_strlit("msg_");
            assert("msg_"@ =~= seq!['m', 's', 'g', '_']);
        }
        let item_id = match req.provider {
            Provider::OpenAI => crate::response::prefixed_id(gen, "msg_"),
            _ => String::new(),
        };
        assert(gen.rng_state == stream_text_start(*req, tpc, s0));
        push_other(&mut frags, Fragment::TextStart { index, item_id }, Ghost(a));
        let budget = stream_budget(req.provider, req.max_tokens);
        let ghost s = gen.rng_state;
        let chunks = gen.stream_chunks(budget);
        let ghost before = frags@;
        let (t, full) = push_text_deltas(&mut frags, &chunks, index, total);
        proof {
            assert(frags@[0] == before[0]) by {
                assert(frags@.subrange(0, before.len() as int)[0] == frags@[0]);
            }
            assert(text_deltas(frags@) =~= spaced(texts(chunks@)));
        }
        total = t;
        let ghost pre = frags@;
        push_other(&mut frags, Fragment::BlockStop { index, text: full }, Ghost(a));
        proof {
            stops_before = pre;
        }
        assert(kinds(frags@) =~= head + body_shape(false, chunks@.len()));
        output = total;
        reason = FinishReason::Stop;
        assert(text_deltas(frags@) == spaced(
            with_final_period(spec_chunks(s, text_budget(req.provider, req.max_tokens), old(gen).tokens_per_chunk as nat).0),
        ));
    }
    let with_usage = match req.provider {
        Provider::Cerebras => req.include_usage,
        _ => true,
    };
    let usage = if with_usage {
        Some(make_usage(input_tokens, output))
    } else {
        None
    };
    let ghost n = text_deltas(frags@).len();
    let ghost body = kinds(frags@);
    push_other(&mut frags, Fragment::Finish { reason, usage }, Ghost(a));
    push_other(&mut frags, Fragment::Done, Ghost(a));
    proof {
        let f = frags@;
        assert(f.len() == stops_before.len() + 3);
        assert(f[f.len() - 3] == frags@[stops_before.len() as int]);
        assert forall|k: int| 0 <= k < f.len() - 3 && (#[trigger] f[k]) is BlockStop implies block_index(f[k]) == 0 by {
            assert(f[k] == stops_before[k]);
        }
        assert(body == head + body_shape(wants_tool(*req), n));
        assert(kinds(frags@) =~= stream_shape(
            if wants_reasoning(*req) { Some(m) } else { None },
            wants_tool(*req),
            text_deltas(frags@).len(),
        ));
    }
    StreamPlan { id, fingerprint, model: req.model.clone(), input_tokens, fragments: frags }
}

} // verus!
