use operit::blocks::{
    header_parts, list_item_parts, render_block_quote, render_header, render_horizontal_rule, render_list_item,
    render_named_xml_body, render_status_xml, render_table_row, render_tool_xml, table_rows, TableRow,
};
use operit::render::{MarkdownInlineNode, MarkdownProcessorType};
use operit::conversation::{
    final_summary_text, summary_history_after_prepare, summary_history_before_send, summary_text_from_chunks,
    ConversationService,
};
use operit::enhanced::{
    EnhancedAIService, MessageExecutionContext, MutableSharedStreamMirror, ToolResultRound,
};
use operit::prompt::{PromptTurn, PromptTurnKind};
use operit::render::{
    line_of, message_header_line, render_message_lines, ChatMessageHeader, StyledLine, TuiColor, TuiStyle,
};
use operit::tool_calls::ToolResult;
use operit::tui::InputProcessingState;

fn message(sender: &str, role: &str, provider: &str, model: &str, tokens: i32, content: &str) -> ChatMessageHeader {
    ChatMessageHeader {
        sender: sender.to_string(),
        roleName: role.to_string(),
        provider: provider.to_string(),
        modelName: model.to_string(),
        outputTokens: tokens,
        content: content.to_string(),
    }
}

fn texts(line: &StyledLine) -> Vec<String> {
    line.spans.iter().map(|s| s.content.clone()).collect()
}

#[test]
fn header_shows_role_model_and_tokens() {
    let l = message_header_line(&message("ai", "  Helper ", "openai", "gpt", 42, "hi"));
    assert_eq!(texts(&l), vec!["Helper: ".to_string(), "openai / gpt / out=42".to_string()]);
    assert_eq!(l.spans[0].style, TuiStyle::plain().fg(TuiColor::Cyan).bold());
    assert_eq!(l.spans[1].style, TuiStyle::plain().fg(TuiColor::DarkGray));
    let u = message_header_line(&message("user", " ", "", "", 0, "hi"));
    assert_eq!(texts(&u), vec!["user: ".to_string(), String::new()]);
    assert_eq!(u.spans[0].style.fg, Some(TuiColor::Green));
    let other = message_header_line(&message("system", "", " ", "m", 3, ""));
    assert_eq!(texts(&other), vec!["system: ".to_string(), "m / out=3".to_string()]);
    assert_eq!(other.spans[0].style.fg, Some(TuiColor::Magenta));
}

#[test]
fn transcript_frames_each_message() {
    let none = render_message_lines(&Vec::new(), Vec::new());
    assert_eq!(none.len(), 1);
    assert_eq!(texts(&none[0]), vec!["No messages yet. Type below to start.".to_string()]);
    let messages = vec![message("user", "", "", "", 0, "hello"), message("ai", "", "", "", 0, "")];
    let bodies = vec![vec![line_of("hello".to_string(), TuiStyle::plain())], Vec::new()];
    let lines = render_message_lines(&messages, bodies);
    let all: Vec<Vec<String>> = lines.iter().map(texts).collect();
    assert_eq!(
        all,
        vec![
            vec!["user: ".to_string(), String::new()],
            vec!["hello".to_string()],
            vec![String::new()],
            vec!["ai: ".to_string(), String::new()],
            vec![String::new()],
            vec![String::new()],
        ]
    );
}

fn tool_result(name: &str) -> ToolResult {
    ToolResult { toolName: name.to_string(), success: true, result: "ok".to_string(), error: None }
}

fn context(active: bool) -> MessageExecutionContext {
    let mut c = MessageExecutionContext::new(1, vec![PromptTurn::new(PromptTurnKind::USER, "q".to_string())], MutableSharedStreamMirror::new(8));
    c.isConversationActive = active;
    c
}

#[test]
fn tool_results_join_the_history() {
    let mut service: EnhancedAIService<()> = EnhancedAIService::new(ConversationService);
    let mut ctx = context(true);
    ctx.streamBuffer = "partial".to_string();
    let results = vec![tool_result("grep"), tool_result("read_file")];
    match service.begin_tool_result_round(&results, "<tool_result>done</tool_result>".to_string(), &mut ctx, false) {
        ToolResultRound::Proceed { displayToolNames } => assert_eq!(displayToolNames, "grep, read_file"),
        ToolResultRound::Skip => panic!("expected the results to go back"),
    }
    assert_eq!(ctx.conversationHistory.len(), 2);
    assert_eq!(ctx.conversationHistory[1].kind, PromptTurnKind::TOOL_RESULT);
    assert_eq!(ctx.conversationHistory[1].content, "<tool_result>done</tool_result>");
    assert_eq!(ctx.conversationHistory[1].tool_name, Some("grep, read_file".to_string()));
    assert_eq!(ctx.roundManager.roundIndex, 1);
    assert_eq!(ctx.streamBuffer, "");
    assert!(matches!(
        &service.input_processing_state,
        InputProcessingState::ProcessingToolResult { toolName } if toolName == "grep, read_file"
    ));
}

#[test]
fn blank_tool_results_send_nothing() {
    let mut service: EnhancedAIService<()> = EnhancedAIService::new(ConversationService);
    let mut ctx = context(true);
    let results = vec![tool_result("grep")];
    assert!(matches!(service.begin_tool_result_round(&results, "  \n".to_string(), &mut ctx, false), ToolResultRound::Skip));
    assert_eq!(ctx.conversationHistory.len(), 1);
    assert!(matches!(service.input_processing_state, InputProcessingState::Idle));
}

#[test]
fn stopped_executions_take_no_results() {
    let mut service: EnhancedAIService<()> = EnhancedAIService::new(ConversationService);
    let mut ctx = context(false);
    assert!(matches!(service.begin_tool_result_round(&Vec::new(), "msg".to_string(), &mut ctx, false), ToolResultRound::Skip));
    assert_eq!(ctx.conversationHistory.len(), 1);
    assert!(matches!(
        &service.input_processing_state,
        InputProcessingState::ProcessingToolResult { toolName } if toolName == "warning"
    ));
    let mut active = context(true);
    service.stop_for_token_limit(&mut active, false);
    assert!(!active.isConversationActive);
}

#[test]
fn summary_history_choices() {
    let history = vec![PromptTurn::new(PromptTurnKind::USER, "hi".to_string())];
    let built = summary_history_after_prepare(Vec::new(), "sys".to_string(), history, "sum".to_string());
    assert_eq!(built.len(), 3);
    assert_eq!(built[0].kind, PromptTurnKind::SYSTEM);
    assert_eq!(built[2].content, "sum");
    let own = vec![PromptTurn::new(PromptTurnKind::USER, "custom".to_string())];
    let kept = summary_history_after_prepare(own, "sys".to_string(), Vec::new(), "sum".to_string());
    assert_eq!(kept.len(), 1);
    assert_eq!(kept[0].content, "custom");

    let given = vec![PromptTurn::new(PromptTurnKind::USER, "same".to_string())];
    let unchanged = vec![PromptTurn::new(PromptTurnKind::USER, "same".to_string())];
    let rebuilt = summary_history_before_send(unchanged, &given, "sys2".to_string(), Vec::new(), "sum2".to_string());
    assert_eq!(rebuilt.len(), 2);
    assert_eq!(rebuilt[0].content, "sys2");
    let changed = vec![PromptTurn::new(PromptTurnKind::ASSISTANT, "same".to_string())];
    let theirs = summary_history_before_send(changed, &given, "sys2".to_string(), Vec::new(), "sum2".to_string());
    assert_eq!(theirs.len(), 1);
    assert_eq!(theirs[0].kind, PromptTurnKind::ASSISTANT);
}

#[test]
fn summary_text_drops_thinking() {
    let chunks = vec!["  <think>plan".to_string(), "</think>The summary.".to_string(), "  ".to_string()];
    assert_eq!(summary_text_from_chunks(&chunks), "The summary.");
    assert_eq!(final_summary_text("  ".to_string()), "Conversation Summary: Unable to generate valid summary.");
    assert_eq!(final_summary_text("ok".to_string()), "ok");
}

fn node(kind: MarkdownProcessorType, content: &str) -> MarkdownInlineNode {
    MarkdownInlineNode { node_type: kind, content: content.to_string() }
}

fn all_texts(lines: &[StyledLine]) -> Vec<Vec<String>> {
    lines.iter().map(texts).collect()
}

#[test]
fn header_parts_and_line() {
    assert_eq!(header_parts("  ## Title "), (2, "Title ".to_string()));
    assert_eq!(header_parts("######## deep"), (6, "## deep".to_string()));
    assert_eq!(header_parts("plain"), (1, "lain".to_string()));
    assert_eq!(header_parts("éx"), (1, String::new()));
    assert_eq!(header_parts(""), (1, String::new()));
    let mut lines = Vec::new();
    render_header(5, &vec![node(MarkdownProcessorType::PlainText, "Hi")], &mut lines);
    assert_eq!(all_texts(&lines), vec![vec!["#### ".to_string(), "Hi".to_string()]]);
    assert_eq!(lines[0].spans[1].style, TuiStyle::plain().fg(TuiColor::Cyan).bold());
}

#[test]
fn list_items_and_quotes() {
    assert_eq!(list_item_parts("3. third  ", true), ("3. ".to_string(), "third".to_string()));
    assert_eq!(list_item_parts("  * star ", false), ("- ".to_string(), "star".to_string()));
    let mut lines = Vec::new();
    render_list_item("- ".to_string(), &vec![node(MarkdownProcessorType::PlainText, "x")], &mut lines);
    render_block_quote(&vec![node(MarkdownProcessorType::PlainText, "a\nb")], &mut lines);
    render_horizontal_rule(&mut lines);
    assert_eq!(
        all_texts(&lines),
        vec![
            vec!["- ".to_string(), "x".to_string()],
            vec!["> ".to_string(), "a".to_string()],
            vec!["> ".to_string(), "b".to_string()],
            vec!["--------------------------------".to_string()],
        ]
    );
}

#[test]
fn tool_status_and_named_blocks() {
    let mut lines = Vec::new();
    render_tool_xml(Some("grep".to_string()), Some("ok".to_string()), "\n line one\nline two \n", true, &mut lines);
    render_tool_xml(None, None, "   ", false, &mut lines);
    render_status_xml(None, Some("info".to_string()), &mut lines);
    render_status_xml(None, None, &mut lines);
    render_named_xml_body("thinking", "  idea  ", &mut lines);
    assert_eq!(
        all_texts(&lines),
        vec![
            vec!["->".to_string(), " ".to_string(), "grep".to_string(), " [ok]".to_string()],
            vec!["  ".to_string(), "line one".to_string()],
            vec!["  ".to_string(), "line two".to_string()],
            vec!["*".to_string(), " ".to_string(), "tool".to_string()],
            vec!["* ".to_string(), "info".to_string()],
            vec!["* ".to_string(), "status".to_string()],
            vec!["<thinking>".to_string()],
            vec!["idea".to_string()],
        ]
    );
}

#[test]
fn tables_become_rows() {
    let rows = table_rows("| a | b |\n|---|:-:|\n\n| 1 |  2 |");
    assert_eq!(rows.len(), 3);
    match &rows[0] {
        TableRow::Cells(c) => assert_eq!(c, &vec!["a".to_string(), "b".to_string()]),
        TableRow::Separator => panic!("expected cells"),
    }
    assert!(matches!(rows[1], TableRow::Separator));
    let mut lines = Vec::new();
    let cells = vec![
        vec![node(MarkdownProcessorType::PlainText, "1")],
        vec![node(MarkdownProcessorType::PlainText, "2")],
    ];
    render_table_row(&rows[2], &cells, &mut lines);
    render_table_row(&rows[1], &Vec::new(), &mut lines);
    assert_eq!(
        all_texts(&lines),
        vec![
            vec!["1".to_string(), " | ".to_string(), "2".to_string()],
            vec!["--------------------------------".to_string()],
        ]
    );
}
