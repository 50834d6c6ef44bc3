use operit::conversation::ConversationService;
use operit::ai_service::TokenCounts;
use operit::enhanced::{
    EnhancedAIService, MessageExecutionContext, MutableSharedStreamMirror, ReplyAction, ReplyEvent, ReplyPhase, ReplyState,
};
use operit::js_tools::getJsToolsDefinition;
use operit::json::JsonProbe;
use operit::prompt::{PromptTurn, PromptTurnKind};
use operit::runtime::{ChatRuntimeHolder, ChatRuntimeSlot, OperitApplication};
use operit::tester::ConnectionTestRun;
use operit::tool_calls::{
    forward_proxy_parameters, parse_i32, sleep_durations, sleep_tool_result, AITool, ToolParameter,
};
use operit::tools::AIToolHandler;

fn tool(name: &str, params: &[(&str, &str)]) -> AITool {
    AITool {
        name: name.to_string(),
        parameters: params
            .iter()
            .map(|(n, v)| ToolParameter { name: n.to_string(), value: v.to_string() })
            .collect(),
    }
}

fn execution(id: i32) -> MessageExecutionContext {
    MessageExecutionContext::new(id, vec![PromptTurn::new(PromptTurnKind::USER, "q".to_string())], MutableSharedStreamMirror::new(4))
}

#[test]
fn registry_keeps_the_given_contexts() {
    let mut service: EnhancedAIService<()> = EnhancedAIService::new(ConversationService);
    assert!(service.active_execution_contexts.is_empty());
    assert!(service.tool_handler.getAllToolNames().is_empty());
    let mut a = execution(1);
    a.streamBuffer = "abc".to_string();
    service.registerExecutionContext(a);
    service.registerExecutionContext(execution(2));
    assert_eq!(service.active_execution_contexts.len(), 2);
    assert_eq!(service.active_execution_contexts[&1].streamBuffer, "abc");
    let mut replacement = execution(1);
    replacement.streamBuffer = "xyz".to_string();
    service.registerExecutionContext(replacement);
    assert_eq!(service.active_execution_contexts.len(), 2);
    assert_eq!(service.active_execution_contexts[&1].streamBuffer, "xyz");
    let mut c = execution(2);
    service.invalidateExecutionContext(&mut c, "stop".to_string());
    assert!(!c.isConversationActive);
    assert!(!service.active_execution_contexts[&2].isConversationActive);
    assert!(service.active_execution_contexts[&1].isConversationActive);
    assert_eq!(service.active_execution_contexts[&1].streamBuffer, "xyz");
    service.invalidateAllExecutionContexts("all".to_string());
    assert!(service.active_execution_contexts.values().all(|c| !c.isConversationActive));
    assert_eq!(service.active_execution_contexts[&1].streamBuffer, "xyz");
    service.unregisterExecutionContext(&execution(1));
    assert_eq!(service.active_execution_contexts.len(), 1);
    assert_eq!(service.active_execution_contexts[&2].executionId, 2);
}

#[test]
fn register_then_unregister_restores() {
    let mut service: EnhancedAIService<()> = EnhancedAIService::new(ConversationService);
    service.registerExecutionContext(execution(4));
    service.registerExecutionContext(execution(9));
    service.unregisterExecutionContext(&execution(9));
    assert_eq!(service.active_execution_contexts.len(), 1);
    assert_eq!(service.active_execution_contexts[&4].executionId, 4);
}

#[test]
fn inactive_context_is_inactive_without_registration() {
    let service: EnhancedAIService<()> = EnhancedAIService::new(ConversationService);
    let mut c = execution(3);
    c.isConversationActive = false;
    assert!(!service.isExecutionContextActive(&c));
}

#[test]
fn initialization_happens_once() {
    let mut service: EnhancedAIService<()> = EnhancedAIService::new(ConversationService);
    service.publishRequestWindowEstimate(77);
    service.ensureInitialized();
    assert!(service.is_service_manager_initialized);
    assert!(service.multi_service_manager.initialized);
    assert_eq!(service.request_window_estimate, Some(77));
    service.ensureInitialized();
    assert!(service.is_service_manager_initialized);
    assert_eq!(service.request_window_estimate, Some(77));
}

#[test]
fn token_counters_leave_other_state() {
    let mut service: EnhancedAIService<()> = EnhancedAIService::new(ConversationService);
    service.publishRequestWindowEstimate(5);
    service.setCurrentTurnTokenCounts(-3, 10, 2);
    assert_eq!(service.accumulated_input_token_count, 0);
    assert_eq!(service.accumulated_output_token_count, 10);
    assert_eq!(service.per_request_token_counts, Some((0, 10)));
    assert_eq!(service.request_window_estimate, Some(5));
    service.resetTokenCounters();
    assert_eq!(service.per_request_token_counts, None);
    assert_eq!(service.request_window_estimate, Some(5));
}

#[test]
fn default_tools_register_in_order() {
    let mut h: AIToolHandler<i32> = AIToolHandler::new();
    h.registerTool("keep".to_string(), 7);
    h.registerDefaultTools(vec![("b".to_string(), 1), ("a".to_string(), 2), ("b".to_string(), 3)]);
    assert_eq!(h.getAllToolNames(), vec!["a".to_string(), "b".to_string(), "keep".to_string()]);
    assert_eq!(h.getToolExecutor("b"), Some(&3));
    assert_eq!(h.getToolExecutor("keep"), Some(&7));
    h.registerDefaultTools(vec![("z".to_string(), 9)]);
    assert_eq!(h.getToolExecutor("z"), None);
    h.unregisterTool("a".to_string());
    assert_eq!(h.getAllToolNames(), vec!["b".to_string(), "keep".to_string()]);
    let taken = h.takeExecutors();
    assert!(h.getAllToolNames().is_empty());
    h.restoreExecutors(taken);
    assert_eq!(h.getAllToolNames(), vec!["b".to_string(), "keep".to_string()]);
}

#[test]
fn fresh_holder_and_sync() {
    let mut holder = ChatRuntimeHolder::new();
    let main = holder.mainCore.as_ref().unwrap();
    assert!(main.activeStreamingChatIds.is_empty());
    assert_eq!(main.currentTurnToolInvocationCountByChatId.len(), 0);
    holder.syncChatSelection(ChatRuntimeSlot::MAIN, ChatRuntimeSlot::FLOATING, "c1".to_string());
    assert_eq!(holder.floatingCore.as_ref().unwrap().currentChatId, Some("c1".to_string()));
    assert_eq!(holder.mainCore.as_ref().unwrap().currentChatId, None);
    holder.syncMainChatSelectionToFloating("   ".to_string());
    assert_eq!(holder.floatingCore.as_ref().unwrap().currentChatId, Some("c1".to_string()));
}

#[test]
fn failed_create_keeps_the_holder() {
    let mut app = OperitApplication::new();
    app.chatRuntimeHolder.syncChatSelection(ChatRuntimeSlot::MAIN, ChatRuntimeSlot::MAIN, "m".to_string());
    assert_eq!(app.onCreate(42, Err("bad prefs".to_string())), Err("bad prefs".to_string()));
    assert_eq!(app.appStartupTimeMs, 42);
    assert!(!app.initialized);
    assert_eq!(app.chatRuntimeHolder.mainCore.as_ref().unwrap().currentChatId, Some("m".to_string()));
    assert_eq!(app.onCreate(43, Ok(())), Ok(()));
    assert!(app.initialized);
    assert_eq!(app.chatRuntimeHolder.mainCore.as_ref().unwrap().currentChatId, None);
}

#[test]
fn recorded_failures_keep_their_reason() {
    let mut run = ConnectionTestRun::new();
    run.record(Err("timeout".to_string()));
    assert!(!run.items[0].success);
    assert_eq!(run.items[0].error, Some("timeout".to_string()));
}

#[test]
fn i32_parsing_follows_std() {
    for s in ["0", "42", "-17", "+5", "2147483647", "-2147483648", "", "-", "+", "12a", " 1", "2147483648", "-2147483649", "99999999999"] {
        assert_eq!(parse_i32(s), s.parse::<i32>().ok(), "input {:?}", s);
    }
}

#[test]
fn sleep_tool_durations() {
    assert_eq!(sleep_durations(&tool("sleep", &[])), (1000, 1000));
    assert_eq!(sleep_durations(&tool("sleep", &[("duration_ms", "250")])), (250, 250));
    assert_eq!(sleep_durations(&tool("sleep", &[("duration_ms", "-5")])), (-5, 0));
    assert_eq!(sleep_durations(&tool("sleep", &[("duration_ms", "soon")])), (1000, 1000));
    let r = sleep_tool_result(&tool("sleep", &[]), -5, 0);
    assert!(r.success);
    assert_eq!(r.result, "{\"requestedMs\":-5,\"sleptMs\":0}");
    let mut m = serde_json::Map::new();
    m.insert("requestedMs".to_string(), serde_json::Value::from(-5));
    m.insert("sleptMs".to_string(), serde_json::Value::from(0));
    assert_eq!(r.result, serde_json::Value::Object(m).to_string());
}

#[test]
fn proxy_parameters_forward_members_and_context() {
    let t = tool("proxy", &[("tool_name", "p:t"), ("params", "{}"), ("__operit_package_chat_id", " c9 ")]);
    let probe = JsonProbe::Present {
        integer: None,
        text: None,
        raw: "{\"a\":\"x\",\"n\":3}".to_string(),
        len: None,
        members: Some(vec![
            ("a".to_string(), Some("x".to_string()), "\"x\"".to_string()),
            ("n".to_string(), None, "3".to_string()),
        ]),
    };
    let f = forward_proxy_parameters(&t, &probe).unwrap();
    let pairs: Vec<(String, String)> = f.iter().map(|p| (p.name.clone(), p.value.clone())).collect();
    assert_eq!(
        pairs,
        vec![
            ("a".to_string(), "x".to_string()),
            ("n".to_string(), "3".to_string()),
            ("__operit_package_chat_id".to_string(), "c9".to_string()),
        ]
    );
    assert_eq!(forward_proxy_parameters(&t, &JsonProbe::Absent).err(), Some("params must be a JSON object".to_string()));
}

#[test]
fn js_tools_prelude_defines_tools() {
    let js = getJsToolsDefinition();
    assert!(js.contains("var Tools = {"));
    assert!(js.contains("toolCall(\"sleep\""));
}

fn counts(input: i32, cached_input: i32, output: i32) -> TokenCounts {
    TokenCounts { input, cached_input, output }
}

#[test]
fn reply_loop_runs_tools_and_sums_tokens() {
    let mut service: EnhancedAIService<()> = EnhancedAIService::new(ConversationService);
    let mut ctx = execution(1);
    let start = ReplyState { phase: ReplyPhase::AwaitingResponse, counts: counts(0, 0, 0) };
    let (s1, a1) = service.reply_step(
        start,
        &mut ctx,
        ReplyEvent::Response { chunks: vec!["Hel".to_string(), "lo".to_string()], counts: counts(10, 2, 5), hasToolInvocations: true },
    );
    assert_eq!(a1, ReplyAction::ExecuteTools);
    assert_eq!(ctx.streamBuffer, "Hello");
    assert_eq!(ctx.roundManager.content, "Hello");
    let (s2, a2) = service.reply_step(s1, &mut ctx, ReplyEvent::ToolsExecuted { messages: vec!["[tool]".to_string()], hasResults: true });
    assert_eq!(a2, ReplyAction::ProcessToolResults);
    assert_eq!(ctx.streamBuffer, "Hello[tool]");
    let (s3, a3) = service.reply_step(s2, &mut ctx, ReplyEvent::FollowUp { chunks: vec![" done".to_string()], counts: counts(4, 1, 3) });
    assert_eq!(a3, ReplyAction::PersistTokenUsage(counts(14, 3, 8)));
    assert_eq!(s3.phase, ReplyPhase::Done);
    assert_eq!(ctx.streamBuffer, "Hello[tool] done");
    let (s4, a4) = service.reply_step(s3, &mut ctx, ReplyEvent::ToolsExecuted { messages: vec!["x".to_string()], hasResults: false });
    assert_eq!(a4, ReplyAction::Ignore);
    assert_eq!(s4, s3);
    assert_eq!(ctx.streamBuffer, "Hello[tool] done");
}

#[test]
fn reply_without_tools_ends_at_once() {
    let mut service: EnhancedAIService<()> = EnhancedAIService::new(ConversationService);
    let mut ctx = execution(2);
    let start = ReplyState { phase: ReplyPhase::AwaitingResponse, counts: counts(0, 0, 0) };
    let (s1, a1) = service.reply_step(
        start,
        &mut ctx,
        ReplyEvent::Response { chunks: vec!["ok".to_string()], counts: counts(3, 0, 1), hasToolInvocations: false },
    );
    assert_eq!(s1.phase, ReplyPhase::Done);
    assert_eq!(a1, ReplyAction::PersistTokenUsage(counts(3, 0, 1)));
    let mut ctx2 = execution(3);
    let executing = ReplyState { phase: ReplyPhase::ExecutingTools, counts: counts(7, 0, 2) };
    let (_, a2) = service.reply_step(executing, &mut ctx2, ReplyEvent::ToolsExecuted { messages: vec![], hasResults: false });
    assert_eq!(a2, ReplyAction::PersistTokenUsage(counts(7, 0, 2)));
    assert_eq!(ctx2.streamBuffer, "");
}

#[test]
fn get_core_hands_back_the_stored_core() {
    let mut holder = ChatRuntimeHolder::new();
    holder.getCore(ChatRuntimeSlot::FLOATING).currentChatId = Some("f".to_string());
    assert_eq!(holder.floatingCore.as_ref().unwrap().currentChatId, Some("f".to_string()));
    assert_eq!(holder.getCore(ChatRuntimeSlot::FLOATING).currentChatId, Some("f".to_string()));
    holder.mainCore = None;
    let fresh = holder.getCore(ChatRuntimeSlot::MAIN);
    assert!(fresh.currentChatId.is_none());
    assert!(holder.mainCore.is_some());
}

#[test]
fn message_execution_leaves_the_registry_as_it_was() {
    let mut service: EnhancedAIService<()> = EnhancedAIService::new(ConversationService);
    service.registerExecutionContext(execution(40));
    let ctx = service.begin_message_execution(vec![PromptTurn::new(PromptTurnKind::USER, "hi".to_string())]);
    assert_eq!(ctx.executionId, 1);
    assert_eq!(service.active_execution_contexts.len(), 2);
    let snapshot = service.finish_message_execution(&ctx, counts(5, 1, 7), false);
    assert_eq!(snapshot.inputTokens, 5);
    assert_eq!(snapshot.outputTokens, 7);
    assert_eq!(service.active_execution_contexts.len(), 1);
    assert!(service.active_execution_contexts.contains_key(&40));
    assert_eq!(service.accumulated_output_token_count, 7);
    assert_eq!(service.per_request_token_counts, Some((5, 7)));
}
