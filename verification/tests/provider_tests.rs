use operit::ai_service::{AIService, AiServiceError, TokenCounts, ToolPrompt};
use operit::claude::{
    ClaudeContentKind, ClaudeRole,
    sanitize_tool_call_id, stable_id_hash_part, xml_unescape, ClaudeProvider, ClaudeStreamPiece, ClaudeStreamState,
};
use operit::deepseek::{
    deepseek_assistant_message, process_streaming_line, split_think_content, DeepseekPiece, DeepseekProvider,
};
use operit::prompt::{PromptTurn, PromptTurnKind};

fn claude(tools: bool) -> ClaudeProvider {
    ClaudeProvider::new(
        "https://api.example/v1/messages".to_string(),
        "key".to_string(),
        "model-x".to_string(),
        "ANTHROPIC".to_string(),
        Vec::new(),
        tools,
    )
}

fn texts(pieces: &[ClaudeStreamPiece]) -> Vec<String> {
    pieces
        .iter()
        .map(|p| match p {
            ClaudeStreamPiece::Text(t) => format!("T:{t}"),
            ClaudeStreamPiece::OpenToolCall(n) => format!("O:{n}"),
            ClaudeStreamPiece::ToolInput(j) => format!("I:{j}"),
            ClaudeStreamPiece::CloseToolCall => "C".to_string(),
        })
        .collect()
}

fn run(provider: &mut ClaudeProvider, parts: &[&str]) -> (ClaudeStreamState, Result<(), AiServiceError>) {
    let mut state = provider.begin_stream();
    for part in parts {
        if let Err(e) = provider.push_stream_text(&mut state, part) {
            return (state, Err(e));
        }
    }
    let r = provider.finish_stream(&mut state);
    (state, r)
}

#[test]
fn claude_stream_text_and_usage() {
    let mut p = claude(false);
    let stream = "data: {\"type\":\"message_start\",\"message\":{\"usage\":{\"input_tokens\":10,\"cache_read_input_tokens\":3,\"output_tokens\":1}}}\n\
data: {\"type\":\"content_block_start\",\"content_block\":{\"type\":\"text\",\"text\":\"\"}}\n\
data: {\"type\":\"content_block_delta\",\"delta\":{\"type\":\"text_delta\",\"text\":\"Hello\"}}\n\
data: {\"type\":\"content_block_stop\"}\n\
data: {\"type\":\"message_delta\",\"usage\":{\"output_tokens\":7}}\n\
data: [DONE]\n";
    let (state, r) = run(&mut p, &[stream]);
    assert!(r.is_ok());
    assert_eq!(texts(&state.pieces), vec!["T:Hello".to_string()]);
    assert_eq!(state.token_counts, TokenCounts { input: 0, cached_input: 0, output: 7 });
    assert_eq!(p.output_token_count(), 7);
    assert_eq!(p.input_token_count(), 0);
}

#[test]
fn claude_message_start_usage_counts_cache() {
    let mut p = claude(false);
    let stream = "data: {\"type\":\"message_start\",\"message\":{\"usage\":{\"input_tokens\":10,\"cache_creation_input_tokens\":4,\"cache_read_input_tokens\":3,\"output_tokens\":1}}}\n";
    let (state, r) = run(&mut p, &[stream]);
    assert!(r.is_ok());
    assert_eq!(state.token_counts, TokenCounts { input: 14, cached_input: 3, output: 1 });
    assert_eq!(p.cached_input_token_count(), 3);
}

#[test]
fn claude_tool_call_pieces() {
    let mut p = claude(true);
    let stream = "data: {\"type\":\"content_block_start\",\"content_block\":{\"type\":\"tool_use\",\"name\":\"echo\",\"input\":{}}}\n\
data: {\"type\":\"content_block_delta\",\"delta\":{\"type\":\"input_json_delta\",\"partial_json\":\"{\\\"a\\\":1}\"}}\n\
data: {\"type\":\"content_block_stop\"}\n";
    let (state, r) = run(&mut p, &[stream]);
    assert!(r.is_ok());
    assert_eq!(
        texts(&state.pieces),
        vec!["O:echo".to_string(), "I:{}".to_string(), "I:{\"a\":1}".to_string(), "C".to_string()]
    );
    assert!(!state.in_tool_call);
}

#[test]
fn claude_tool_use_ignored_without_tool_calls() {
    let mut p = claude(false);
    let stream = "data: {\"type\":\"content_block_start\",\"content_block\":{\"type\":\"tool_use\",\"name\":\"echo\",\"input\":{}}}\n";
    let (state, r) = run(&mut p, &[stream]);
    assert!(r.is_ok());
    assert!(state.pieces.is_empty());
}

#[test]
fn claude_thinking_block_and_unclosed_end() {
    let mut p = claude(false);
    let stream = "data: {\"type\":\"content_block_start\",\"content_block\":{\"type\":\"thinking\",\"thinking\":\"\"}}\n\
data: {\"type\":\"content_block_delta\",\"delta\":{\"type\":\"thinking_delta\",\"thinking\":\"hmm\"}}\n";
    let (state, r) = run(&mut p, &[stream]);
    assert!(r.is_ok());
    assert_eq!(
        texts(&state.pieces),
        vec!["T:\n<think>".to_string(), "T:hmm".to_string(), "T:</think>\n".to_string()]
    );
}

#[test]
fn claude_open_tool_call_closed_at_end() {
    let mut p = claude(true);
    let stream = "data: {\"type\":\"content_block_start\",\"content_block\":{\"type\":\"tool_use\",\"name\":\"t\"}}";
    let (state, r) = run(&mut p, &[stream]);
    assert!(r.is_ok());
    assert_eq!(texts(&state.pieces), vec!["O:t".to_string(), "C".to_string()]);
}

#[test]
fn claude_openai_style_delta() {
    let mut p = claude(false);
    let stream = "data: {\"choices\":[{\"delta\":{\"content\":\"x\"}}]}\n";
    let (state, r) = run(&mut p, &[stream]);
    assert!(r.is_ok());
    assert_eq!(texts(&state.pieces), vec!["T:x".to_string()]);
}

#[test]
fn claude_non_sse_json_body() {
    let mut p = claude(false);
    let body = "{\"content\":[{\"type\":\"text\",\"text\":\"Hi\"},{\"type\":\"thinking\",\"thinking\":\"t\"}],\"usage\":{\"input_tokens\":5,\"output_tokens\":2}}\n";
    let (state, r) = run(&mut p, &[body]);
    assert!(r.is_ok());
    assert_eq!(
        texts(&state.pieces),
        vec!["T:Hi".to_string(), "T:\n<think>".to_string(), "T:t".to_string(), "T:</think>\n".to_string()]
    );
    assert_eq!(state.token_counts, TokenCounts { input: 5, cached_input: 0, output: 2 });
}

#[test]
fn claude_bad_json_is_an_error() {
    let mut p = claude(false);
    let (_state, r) = run(&mut p, &["data: {not json}\n"]);
    match r {
        Err(AiServiceError::RequestFailed(m)) => assert!(!m.is_empty()),
        _ => panic!("expected a request failure"),
    }
}

#[test]
fn claude_split_text_gives_same_result() {
    let whole = "data: {\"type\":\"content_block_delta\",\"delta\":{\"text\":\"Hello\"}}\ndata: {\"type\":\"content_block_delta\",\"delta\":{\"text\":\" world\"}}\n";
    let mut p1 = claude(false);
    let (s1, r1) = run(&mut p1, &[whole]);
    let mut p2 = claude(false);
    let (s2, r2) = run(&mut p2, &[&whole[..20], &whole[20..50], &whole[50..]]);
    assert!(r1.is_ok() && r2.is_ok());
    assert_eq!(texts(&s1.pieces), texts(&s2.pieces));
    assert_eq!(texts(&s1.pieces), vec!["T:Hello".to_string(), "T: world".to_string()]);
}

#[test]
fn claude_repeated_data_prefix() {
    let mut p = claude(false);
    let (state, r) = run(&mut p, &["data:data: {\"type\":\"content_block_delta\",\"delta\":{\"text\":\"z\"}}\n"]);
    assert!(r.is_ok());
    assert_eq!(texts(&state.pieces), vec!["T:z".to_string()]);
}

#[test]
fn claude_provider_model_and_reset() {
    let mut p = claude(false);
    assert_eq!(p.provider_model(), "ANTHROPIC:model-x");
    p.inputTokenCount = 4;
    p.reset_token_counts();
    assert_eq!(p.input_token_count(), 0);
    p.cancel_streaming();
    assert!(p.cancelled);
}

#[test]
fn claude_input_token_estimate() {
    let p = claude(false);
    let history = vec![PromptTurn::new(PromptTurnKind::USER, "hello".to_string())];
    let tools = vec![ToolPrompt::new("ab".to_string(), "c".to_string())];
    // 5 + 3 bytes, plus 3, over 4
    assert_eq!(p.calculate_input_tokens(&history, &tools).ok(), Some(2));
    let history = vec![PromptTurn::new(PromptTurnKind::USER, "é".to_string())];
    assert_eq!(p.calculate_input_tokens(&history, &Vec::new()).ok(), Some(1));
}

#[test]
fn tool_call_ids_are_sanitized() {
    assert_eq!(sanitize_tool_call_id("get weather!!"), "get_weather");
    assert_eq!(sanitize_tool_call_id("__a__b__"), "a_b");
    assert_eq!(sanitize_tool_call_id("a--b"), "a--b");
    assert_eq!(sanitize_tool_call_id("!!!"), "toolu");
    assert_eq!(sanitize_tool_call_id(""), "toolu");
}

#[test]
fn stable_hash_in_base_36() {
    assert_eq!(stable_id_hash_part(""), "0");
    assert_eq!(stable_id_hash_part("a"), "2p");
    assert_eq!(stable_id_hash_part("ab"), "2e9");
    // "polygenelubricants" hashes to i32::MIN in the 31-multiplier string hash
    assert_eq!(stable_id_hash_part("polygenelubricants"), "0");
}

#[test]
fn xml_entities_are_unescaped() {
    assert_eq!(xml_unescape("&lt;b&gt; &quot;x&quot; &apos;y&apos;"), "<b> \"x\" 'y'");
    assert_eq!(xml_unescape("&amp;lt;"), "&lt;");
}

#[test]
fn deepseek_think_split() {
    let (visible, reasoning) = split_think_content("before <think>why</think> after");
    assert_eq!(visible, "before  after");
    assert_eq!(reasoning, "why");
    let (visible, reasoning) = split_think_content("no tags");
    assert_eq!(visible, "no tags");
    assert_eq!(reasoning, "");
    let (visible, reasoning) = split_think_content("<think>open only");
    assert_eq!(visible, "<think>open only");
    assert_eq!(reasoning, "");
}

#[test]
fn deepseek_streamed_line() {
    let mut chunks: Vec<DeepseekPiece> = Vec::new();
    let mut counts = TokenCounts { input: 0, cached_input: 0, output: 0 };
    let line = "data: {\"choices\":[{\"delta\":{\"reasoning_content\":\"r\",\"content\":\"c\"}}],\"usage\":{\"prompt_tokens\":3,\"completion_tokens\":4,\"prompt_tokens_details\":{\"cached_tokens\":1}}}";
    assert!(process_streaming_line(line, &mut chunks, &mut counts).is_ok());
    assert_eq!(counts, TokenCounts { input: 3, cached_input: 1, output: 4 });
    assert_eq!(chunks.len(), 2);
    assert!(matches!(&chunks[0], DeepseekPiece::Text(t) if t == "<think>r</think>"));
    assert!(matches!(&chunks[1], DeepseekPiece::Content(t) if t == "c"));
}

#[test]
fn deepseek_tool_calls_and_done() {
    let mut chunks: Vec<DeepseekPiece> = Vec::new();
    let mut counts = TokenCounts { input: 1, cached_input: 1, output: 1 };
    let line = "data: {\"choices\":[{\"delta\":{\"tool_calls\":[{\"id\":\"x\"},{\"id\":\"y\"}]}}]}";
    assert!(process_streaming_line(line, &mut chunks, &mut counts).is_ok());
    assert_eq!(counts, TokenCounts { input: 1, cached_input: 1, output: 1 });
    assert_eq!(chunks.len(), 2);
    assert!(matches!(&chunks[0], DeepseekPiece::ToolCall(t) if t == "{\"id\":\"x\"}"));
    assert!(process_streaming_line("data: [DONE]", &mut chunks, &mut counts).is_ok());
    assert!(process_streaming_line(": keep-alive", &mut chunks, &mut counts).is_ok());
    assert_eq!(chunks.len(), 2);
    assert!(process_streaming_line("data: {", &mut chunks, &mut counts).is_err());
    assert_eq!(chunks.len(), 2);
}

#[test]
fn deepseek_provider_basics() {
    let p = DeepseekProvider::new(
        "e".to_string(),
        "k".to_string(),
        "deepseek-chat".to_string(),
        "DEEPSEEK".to_string(),
        Vec::new(),
        true,
    );
    assert_eq!(p.resolve_deepseek_thinking_effort(true), "enabled");
    assert_eq!(p.resolve_deepseek_thinking_effort(false), "disabled");
    assert_eq!(p.provider_model(), "DEEPSEEK:deepseek-chat");
    assert!(!p.supports_vision);
    let history = vec![PromptTurn::new(PromptTurnKind::USER, "héllo".to_string())];
    let mut tool = ToolPrompt::new("n".to_string(), "d".to_string());
    tool.parameters = "{}".to_string();
    // 5 characters + 4 bytes + 3 = 12, over 4
    assert_eq!(p.calculate_input_tokens(&history, &vec![tool]).ok(), Some(3));
}

#[test]
fn claude_messages_by_role() {
    let history = vec![
        PromptTurn::new(PromptTurnKind::SYSTEM, "sys".to_string()),
        PromptTurn::new(PromptTurnKind::USER, "hi".to_string()),
        PromptTurn::new(PromptTurnKind::ASSISTANT, "hello".to_string()),
        PromptTurn::new(PromptTurnKind::TOOL_RESULT, "result".to_string()),
        PromptTurn::new(PromptTurnKind::SUMMARY, "sum".to_string()),
    ];
    let (system, messages) = claude(true).claude_message_plan(&history);
    assert_eq!(system, vec!["sys".to_string(), "sum".to_string()]);
    let plan: Vec<(ClaudeRole, ClaudeContentKind, String)> =
        messages.into_iter().map(|m| (m.role, m.content_kind, m.text)).collect();
    assert_eq!(
        plan,
        vec![
            (ClaudeRole::User, ClaudeContentKind::Text, "hi".to_string()),
            (ClaudeRole::Assistant, ClaudeContentKind::AssistantBlocks, "hello".to_string()),
            (ClaudeRole::User, ClaudeContentKind::ToolResultBlocks, "result".to_string()),
        ]
    );
    let (_, plain) = claude(false).claude_message_plan(&history);
    assert_eq!(plain[1].content_kind, ClaudeContentKind::Text);
    assert_eq!(plain[2].content_kind, ClaudeContentKind::Text);
}

#[test]
fn deepseek_assistant_content_rules() {
    assert_eq!(
        deepseek_assistant_message("<think>why</think>answer", false),
        (Some("answer".to_string()), "why".to_string())
    );
    assert_eq!(deepseek_assistant_message("<think>why</think>  ", false), (Some("[Empty]".to_string()), "why".to_string()));
    assert_eq!(deepseek_assistant_message("  ", true), (None, "".to_string()));
    assert_eq!(deepseek_assistant_message("call", true), (Some("call".to_string()), "".to_string()));
}
