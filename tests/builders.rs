use tokenipsum::cerebras::{finish_reason, Usage as CerebrasUsage};
use tokenipsum::claude::{stop_reason, Usage as ClaudeUsage};
use tokenipsum::gemini::{parse_model_action, ModelAction, UsageMetadata};
use tokenipsum::intent::{extract_argument, mentions_trigger, should_call_tool};
use tokenipsum::openai::Usage as OpenAiUsage;
use tokenipsum::request::{count_input_tokens, ChatRequest, Part, Turn};
use tokenipsum::response::{
    build_completion, generate_signature, make_usage, response_id, ContentItem, FinishReason,
};
use tokenipsum::stream::{build_stream, stream_budget, Fragment};
use tokenipsum::{ContentGenerator, Provider};

fn request(provider: Provider, text: &str, tools: &[&str]) -> ChatRequest {
    ChatRequest {
        provider,
        model: "m".to_string(),
        system: None,
        turns: vec![Turn { role: "user".to_string(), parts: vec![Part::Text(text.to_string())] }],
        max_tokens: None,
        tool_names: tools.iter().map(|t| t.to_string()).collect(),
        thinking_budget: None,
        include_usage: false,
        stream: false,
    }
}

#[test]
fn cerebras_test_should_call_tool() {
    assert!(should_call_tool(Some("What is the weather in Tokyo?")));
}

#[test]
fn claude_test_should_call_tool() {
    assert!(should_call_tool(Some("What is the weather in Tokyo?")));
}

#[test]
fn gemini_test_should_call_tool() {
    assert!(should_call_tool(Some("What is the weather in Tokyo?")));
}

#[test]
fn test_should_not_call_tool() {
    assert!(!should_call_tool(Some("Hello there!")));
    assert!(!should_call_tool(None));
}

#[test]
fn trigger_words_are_found_in_lower_case() {
    assert!(mentions_trigger("please search this"));
    assert!(mentions_trigger("calculate 2+2"));
    assert!(mentions_trigger("find me"));
    assert!(!mentions_trigger("hello there"));
    assert!(should_call_tool(Some("SEARCH the WEB")));
}

#[test]
fn test_extract_argument() {
    assert_eq!(extract_argument(Some("What is the weather in Paris?")), "Paris");
}

#[test]
fn argument_fallbacks_and_trimming() {
    assert_eq!(extract_argument(None), "unknown");
    assert_eq!(extract_argument(Some("a b c")), "unknown");
    assert_eq!(extract_argument(Some("")), "unknown");
    assert_eq!(extract_argument(Some("weather in \"Tokyo\",  ")), "Tokyo");
    assert_eq!(extract_argument(Some("find Oslo in no")), "Oslo");
    assert_eq!(extract_argument(Some("go to the ???")), "");
}

#[test]
fn test_count_input_tokens() {
    let mut req = request(Provider::Claude, "Hello world", &[]);
    req.system = Some("You are helpful.".to_string());
    let tokens = count_input_tokens(&req);
    assert!(tokens > 0);
    assert_eq!(tokens, 4 + 3);
}

#[test]
fn input_tokens_count_every_text_part() {
    let mut req = request(Provider::Claude, "abcd", &[]);
    req.turns.push(Turn {
        role: "assistant".to_string(),
        parts: vec![Part::Reasoning("abcdefgh".to_string()), Part::Other, Part::Text("a".to_string())],
    });
    assert_eq!(count_input_tokens(&req), 1 + 2 + 1);
}

#[test]
fn test_generate_message_id() {
    let mut gen = ContentGenerator::with_seed(42);
    let id = response_id(&mut gen, Provider::Claude);
    assert!(id.starts_with("msg_"));
    assert!(id.len() >= 15 && id.len() <= 20);
}

#[test]
fn test_generate_tool_use_id() {
    let mut gen = ContentGenerator::with_seed(42);
    let req = request(Provider::Claude, "What is the weather in Tokyo?", &["get_weather"]);
    let c = build_completion(&mut gen, &req);
    match c.items.last().unwrap() {
        ContentItem::ToolCall { id, .. } => assert!(id.starts_with("toolu_")),
        _ => panic!("expected a tool call"),
    }
}

#[test]
fn test_generate_signature() {
    let mut gen = ContentGenerator::with_seed(42);
    let sig = generate_signature(&mut gen);
    assert!(!sig.is_empty());
    assert!(sig.starts_with("EtUB") && sig.ends_with("=="));
    assert_eq!(sig.len(), 86);
}

#[test]
fn weather_with_a_tool_gives_one_tool_call() {
    for provider in [Provider::Cerebras, Provider::Claude, Provider::Gemini, Provider::OpenAI] {
        let mut gen = ContentGenerator::with_seed(1);
        let req = request(provider, "What is the weather in Tokyo?", &["get_weather", "other"]);
        let c = build_completion(&mut gen, &req);
        assert_eq!(c.finish, FinishReason::ToolCall);
        let calls: Vec<_> = c
            .items
            .iter()
            .filter(|i| matches!(i, ContentItem::ToolCall { .. }))
            .collect();
        assert_eq!(calls.len(), 1);
        match calls[0] {
            ContentItem::ToolCall { name, argument, .. } => {
                assert_eq!(name, "get_weather");
                assert_eq!(argument, "Tokyo");
            }
            _ => unreachable!(),
        }
    }
    assert_eq!(finish_reason(FinishReason::ToolCall), "tool_calls");
    assert_eq!(stop_reason(FinishReason::ToolCall), "tool_use");
}

#[test]
fn no_trigger_gives_text_and_stop() {
    let mut gen = ContentGenerator::with_seed(1);
    let req = request(Provider::Claude, "Hello there!", &["get_weather"]);
    let c = build_completion(&mut gen, &req);
    assert_eq!(c.finish, FinishReason::Stop);
    assert_eq!(c.items.len(), 1);
    assert!(matches!(&c.items[0], ContentItem::Text { .. }));
    assert_eq!(stop_reason(c.finish), "end_turn");
}

#[test]
fn trigger_without_tools_gives_text() {
    let mut gen = ContentGenerator::with_seed(1);
    let req = request(Provider::Cerebras, "What is the weather?", &[]);
    let c = build_completion(&mut gen, &req);
    assert_eq!(c.finish, FinishReason::Stop);
}

#[test]
fn chat_completion_hello_scenario() {
    let mut gen = ContentGenerator::new();
    let req = request(Provider::Cerebras, "Hello", &[]);
    let c = build_completion(&mut gen, &req);
    assert_eq!(finish_reason(c.finish), "stop");
    let usage = CerebrasUsage::from_tally(c.usage);
    assert_eq!(usage.prompt_tokens, 2);
    assert_eq!(usage.total_tokens, usage.prompt_tokens + usage.completion_tokens);
    match &c.items[0] {
        ContentItem::Text { text, .. } => {
            assert_eq!(usage.completion_tokens, ContentGenerator::estimate_tokens(text))
        }
        _ => panic!("expected text"),
    }
    assert!(c.id.starts_with("chatcmpl-"));
    assert!(c.fingerprint.starts_with("fp_"));
}

#[test]
fn reasoning_block_comes_first_and_is_counted() {
    let mut gen = ContentGenerator::with_seed(4);
    let mut req = request(Provider::Claude, "What is 2+2?", &[]);
    req.thinking_budget = Some(1024);
    let c = build_completion(&mut gen, &req);
    assert_eq!(c.items.len(), 2);
    let (r, t) = match (&c.items[0], &c.items[1]) {
        (ContentItem::Reasoning { text: r, signature }, ContentItem::Text { text: t, .. }) => {
            assert_eq!(signature.len(), 86);
            (r.clone(), t.clone())
        }
        _ => panic!("expected reasoning then text"),
    };
    let expected = ContentGenerator::estimate_tokens(&r) + ContentGenerator::estimate_tokens(&t);
    assert_eq!(c.usage.output_tokens, expected);
    let u = ClaudeUsage::from_tally(c.usage);
    assert_eq!(u.cache_read_input_tokens, Some(0));
}

#[test]
fn tool_call_output_tokens_are_the_fixed_cost() {
    let expected = [(Provider::Claude, 50), (Provider::Gemini, 12), (Provider::OpenAI, 15), (Provider::Cerebras, 15)];
    for (p, cost) in expected {
        let mut gen = ContentGenerator::with_seed(2);
        let c = build_completion(&mut gen, &request(p, "search the web for rust", &["web"]));
        assert_eq!(c.usage.output_tokens, cost);
        assert_eq!(c.usage.total_tokens, c.usage.input_tokens + cost);
    }
}

fn delta_texts(frags: &[Fragment]) -> Vec<String> {
    frags
        .iter()
        .filter_map(|f| match f {
            Fragment::TextDelta { text, .. } => Some(text.clone()),
            _ => None,
        })
        .collect()
}

#[test]
fn stream_skeleton_and_usage() {
    let mut gen = ContentGenerator::with_seed(8);
    let mut req = request(Provider::Cerebras, "Hello", &[]);
    req.stream = true;
    req.include_usage = true;
    req.max_tokens = Some(12);
    let plan = build_stream(&mut gen, &req);
    let f = &plan.fragments;
    assert!(matches!(f[0], Fragment::Start));
    assert!(matches!(f[f.len() - 1], Fragment::Done));
    let deltas = delta_texts(f);
    assert!(!deltas[0].starts_with(' '));
    assert!(deltas[1..].iter().all(|d| d.starts_with(' ') && !d.starts_with("  ")));
    assert!(deltas.last().unwrap().ends_with('.'));
    let words: usize = deltas.iter().map(|d| d.split_whitespace().count()).sum();
    assert_eq!(words, 12);
    let streamed: u32 = deltas.iter().map(|d| ContentGenerator::estimate_tokens(d)).sum();
    match &f[f.len() - 2] {
        Fragment::Finish { reason, usage: Some(u) } => {
            assert_eq!(*reason, FinishReason::Stop);
            assert_eq!(u.output_tokens, streamed);
            assert_eq!(u.input_tokens, 2);
            assert_eq!(u.total_tokens, 2 + streamed);
        }
        _ => panic!("expected the finish fragment with usage"),
    }
    let full: String = deltas.concat();
    assert!(f.iter().any(|x| matches!(x, Fragment::BlockStop { text, .. } if *text == full)));
}

#[test]
fn stream_usage_only_when_opted_in() {
    let mut gen = ContentGenerator::with_seed(8);
    let plan = build_stream(&mut gen, &request(Provider::Cerebras, "Hello", &[]));
    let f = &plan.fragments;
    assert!(matches!(f[f.len() - 2], Fragment::Finish { usage: None, .. }));
    let plan = build_stream(&mut gen, &request(Provider::Gemini, "Hello", &[]));
    let f = &plan.fragments;
    assert!(matches!(f[f.len() - 2], Fragment::Finish { usage: Some(_), .. }));
}

#[test]
fn stream_running_totals() {
    let mut gen = ContentGenerator::with_seed(3);
    let plan = build_stream(&mut gen, &request(Provider::Gemini, "Hello", &[]));
    let mut sum = 0u32;
    for f in &plan.fragments {
        if let Fragment::TextDelta { text, tokens_so_far, .. } = f {
            sum += ContentGenerator::estimate_tokens(text);
            assert_eq!(*tokens_so_far, sum);
        }
    }
    assert_eq!(stream_budget(Provider::Gemini, None), 50);
    assert_eq!(stream_budget(Provider::Claude, Some(2000)), 100);
}

#[test]
fn stream_tool_path() {
    let mut gen = ContentGenerator::with_seed(3);
    let plan = build_stream(&mut gen, &request(Provider::Claude, "What is the weather in Tokyo?", &["get_weather"]));
    let f = &plan.fragments;
    let tools: Vec<_> = f
        .iter()
        .filter_map(|x| match x {
            Fragment::ToolDelta { name, argument, .. } => Some((name.clone(), argument.clone())),
            _ => None,
        })
        .collect();
    assert_eq!(tools, vec![("get_weather".to_string(), "Tokyo".to_string())]);
    assert!(delta_texts(f).is_empty());
    match &f[f.len() - 2] {
        Fragment::Finish { reason, usage: Some(u) } => {
            assert_eq!(*reason, FinishReason::ToolCall);
            assert_eq!(u.output_tokens, 50);
        }
        _ => panic!("expected the finish fragment"),
    }
}

#[test]
fn stream_reasoning_block_before_text() {
    let mut gen = ContentGenerator::with_seed(6);
    let mut req = request(Provider::Claude, "What is 2+2?", &[]);
    req.thinking_budget = Some(10);
    req.max_tokens = Some(2000);
    let plan = build_stream(&mut gen, &req);
    let f = &plan.fragments;
    assert!(matches!(f[1], Fragment::ReasoningStart { index: 0 }));
    let sig = f.iter().position(|x| matches!(x, Fragment::SignatureDelta { .. })).unwrap();
    let text_start = f.iter().position(|x| matches!(x, Fragment::TextStart { index: 1, .. })).unwrap();
    assert!(sig < text_start);
    let words: usize = delta_texts(f).iter().map(|d| d.split_whitespace().count()).sum();
    assert_eq!(words, 100);
}

#[test]
fn usage_blocks_follow_the_tally() {
    let t = make_usage(10, 5);
    assert_eq!(t.total_tokens, 15);
    let o = OpenAiUsage::from_tally(t);
    assert_eq!((o.input_tokens, o.output_tokens, o.total_tokens), (10, 5, 15));
    let g = UsageMetadata::from_tally(t);
    assert_eq!((g.prompt_token_count, g.candidates_token_count, g.total_token_count), (10, 5, 15));
    assert_eq!(make_usage(u32::MAX, 1).total_tokens, u32::MAX);
}

#[test]
fn model_action_segments() {
    let (m, a) = parse_model_action("gemini-pro:generateContent").unwrap();
    assert_eq!(m, "gemini-pro");
    assert_eq!(a, ModelAction::Generate);
    let (m, a) = parse_model_action("a:b:streamGenerateContent").unwrap();
    assert_eq!(m, "a:b");
    assert_eq!(a, ModelAction::StreamGenerate);
    assert_eq!(parse_model_action("g:other").unwrap().1, ModelAction::Unknown);
    assert!(parse_model_action("nocolon").is_none());
}

#[test]
fn seeded_builders_are_deterministic() {
    for p in [Provider::Cerebras, Provider::Claude, Provider::Gemini, Provider::OpenAI] {
        let mut req = request(p, "Hello", &[]);
        req.thinking_budget = Some(20);
        let mut g1 = ContentGenerator::with_seed(31);
        let mut g2 = ContentGenerator::with_seed(31);
        let a = build_completion(&mut g1, &req);
        let b = build_completion(&mut g2, &req);
        assert_eq!(a.id, b.id);
        assert_eq!(a.fingerprint, b.fingerprint);
        match (a.items.last().unwrap(), b.items.last().unwrap()) {
            (ContentItem::Text { text: x, id: i }, ContentItem::Text { text: y, id: j }) => {
                assert_eq!(x, y);
                assert_eq!(i, j);
                assert!(!x.is_empty());
            }
            _ => panic!("expected text"),
        }
        assert_eq!(g1.rng_state, g2.rng_state);
        let s1 = build_stream(&mut g1, &req);
        let s2 = build_stream(&mut g2, &req);
        assert_eq!(delta_texts(&s1.fragments), delta_texts(&s2.fragments));
        assert_eq!(s1.id, s2.id);
    }
    let mut g1 = ContentGenerator::with_seed(9);
    let mut g2 = ContentGenerator::with_seed(9);
    assert_eq!(generate_signature(&mut g1), generate_signature(&mut g2));
}

#[test]
fn tool_identifiers_carry_their_prefixes() {
    let mut gen = ContentGenerator::with_seed(12);
    let c = build_completion(&mut gen, &request(Provider::OpenAI, "find the weather in Rome", &["w"]));
    match c.items.last().unwrap() {
        ContentItem::ToolCall { id, call_id, .. } => {
            assert!(id.starts_with("fc_"));
            assert!(call_id.starts_with("call_"));
        }
        _ => panic!("expected a tool call"),
    }
    assert!(c.id.starts_with("resp_"));
    let c = build_completion(&mut gen, &request(Provider::Cerebras, "find the weather in Rome", &["w"]));
    match c.items.last().unwrap() {
        ContentItem::ToolCall { id, call_id, .. } => {
            assert!(id.len() >= 11 && id.chars().all(|ch| ch.is_ascii_hexdigit()));
            assert!(call_id.is_empty());
        }
        _ => panic!("expected a tool call"),
    }
}

#[test]
fn messages_tool_scenario() {
    let mut gen = ContentGenerator::new();
    let mut req = request(Provider::Claude, "What is the weather in Tokyo?", &["get_weather"]);
    req.max_tokens = Some(100);
    let c = build_completion(&mut gen, &req);
    assert_eq!(c.items.len(), 1);
    match &c.items[0] {
        ContentItem::ToolCall { id, name, argument, .. } => {
            assert!(id.starts_with("toolu_"));
            assert_eq!(name, "get_weather");
            assert_eq!(argument, "Tokyo");
        }
        _ => panic!("expected a tool call"),
    }
    assert_eq!(stop_reason(c.finish), "tool_use");
    assert_eq!(c.usage.input_tokens, 8);
    assert_eq!(c.usage.output_tokens, 50);
}

#[test]
fn the_most_recent_user_turn_decides() {
    let mut req = request(Provider::Cerebras, "What is the weather in Oslo?", &["get_weather"]);
    req.turns.push(Turn { role: "assistant".to_string(), parts: vec![Part::Text("Hello".to_string())] });
    let mut gen = ContentGenerator::with_seed(1);
    let c = build_completion(&mut gen, &req);
    assert_eq!(c.finish, FinishReason::ToolCall);
    match c.items.last().unwrap() {
        ContentItem::ToolCall { argument, .. } => assert_eq!(argument, "Oslo"),
        _ => panic!("expected a tool call"),
    }
    let mut sys_only = request(Provider::Gemini, "find weather", &["f"]);
    sys_only.turns[0].role = "system".to_string();
    assert_eq!(build_completion(&mut gen, &sys_only).finish, FinishReason::Stop);
}

#[test]
fn stream_block_indices() {
    let mut gen = ContentGenerator::with_seed(6);
    let mut req = request(Provider::Claude, "What is 2+2?", &[]);
    req.thinking_budget = Some(7);
    let plan = build_stream(&mut gen, &req);
    let f = &plan.fragments;
    for x in f {
        match x {
            Fragment::ReasoningStart { index }
            | Fragment::ReasoningDelta { index, .. }
            | Fragment::SignatureDelta { index, .. } => assert_eq!(*index, 0),
            Fragment::TextStart { index, .. } | Fragment::TextDelta { index, .. } => assert_eq!(*index, 1),
            _ => {}
        }
    }
    match &f[f.len() - 3] {
        Fragment::BlockStop { index, text } => {
            assert_eq!(*index, 1);
            assert_eq!(*text, delta_texts(f).concat());
        }
        _ => panic!("expected the closing fragment"),
    }
}
