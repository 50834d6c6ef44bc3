use operit::ai_service::{
    collect_stream_chunks, empty_response_stream, eq_ignore_case, response_stream_from_chunks, LlmRetryPolicy,
    MimoProvider,
};
use operit::packages::{PackageTool, ToolPackage, LocalizedText};
use operit::render::{
    render_code_block, render_image_spans, render_inline_spans, render_link_spans, render_plain_lines,
    split_spans_by_newline, MarkdownInlineNode, MarkdownProcessorType, StyledLine, StyledSpan, TuiColor, TuiStyle,
};
use operit::runtime::{ChatRuntimeHolder, ChatSelectionMode, OperitApplication};
use operit::skill::{
    getSkillSystemPrompt, parseSkillMetadataContent, skills_from_scan, unquote, ScannedSkillDirectory,
};
use operit::strmap::StrMap;
use operit::tester::{ConnectionTestRun, ModelConfigConnectionTester, ModelConnectionTestType};
use operit::tool_calls::{
    browserParametersJson, browser_tool_result, parseProxyInvocation, requiredParameterValue, validate_browser_parameters, AITool, PathValidator, ToolParameter,
};
use operit::watch::WatchChannelRegistry;

fn span_texts(line: &StyledLine) -> Vec<String> {
    line.spans.iter().map(|s| s.content.clone()).collect()
}

fn tool(name: &str, params: &[(&str, &str)]) -> AITool {
    AITool {
        name: name.to_string(),
        parameters: params
            .iter()
            .map(|(n, v)| ToolParameter { name: n.to_string(), value: v.to_string() })
            .collect(),
    }
}

#[test]
fn spans_break_at_line_breaks() {
    let plain = TuiStyle::plain();
    let bold = TuiStyle::plain().bold();
    let lines = split_spans_by_newline(vec![
        StyledSpan { content: "a\nb".to_string(), style: plain },
        StyledSpan { content: "c".to_string(), style: bold },
    ]);
    assert_eq!(lines.len(), 2);
    assert_eq!(span_texts(&lines[0]), vec!["a".to_string()]);
    assert_eq!(span_texts(&lines[1]), vec!["b".to_string(), "c".to_string()]);
    assert_eq!(lines[1].spans[1].style, bold);
    let lines = split_spans_by_newline(vec![StyledSpan { content: "x\n\n".to_string(), style: plain }]);
    assert_eq!(lines.len(), 3);
    assert!(lines[2].spans.is_empty());
}

#[test]
fn code_block_lines() {
    let mut lines = Vec::new();
    render_code_block("```rust\nlet x = 1;\n```", &mut lines);
    let all: Vec<Vec<String>> = lines.iter().map(span_texts).collect();
    assert_eq!(
        all,
        vec![vec!["``` code rust".to_string()], vec!["  let x = 1;".to_string()], vec!["```".to_string()]]
    );
    assert_eq!(lines[1].spans[0].style, TuiStyle::plain().fg(TuiColor::LightYellow).bg(TuiColor::Black));
    let mut lines = Vec::new();
    render_code_block("```\nplain", &mut lines);
    assert_eq!(span_texts(&lines[0]), vec!["``` code".to_string()]);
}

#[test]
fn link_and_image_spans() {
    let spans = render_link_spans("[docs](https://x.y)");
    let texts: Vec<String> = spans.iter().map(|s| s.content.clone()).collect();
    assert_eq!(texts, vec!["docs".to_string(), " (https://x.y)".to_string()]);
    let spans = render_image_spans("![cat](c.png)");
    let texts: Vec<String> = spans.iter().map(|s| s.content.clone()).collect();
    assert_eq!(texts, vec!["[image: cat]".to_string(), " c.png".to_string()]);
    let spans = render_link_spans("not a link");
    assert_eq!(spans.len(), 1);
    assert_eq!(spans[0].content, "not a link");
}

#[test]
fn inline_spans_by_kind() {
    let nodes = vec![
        MarkdownInlineNode { node_type: MarkdownProcessorType::Bold, content: "**b**".to_string() },
        MarkdownInlineNode { node_type: MarkdownProcessorType::InlineCode, content: "`c`".to_string() },
        MarkdownInlineNode { node_type: MarkdownProcessorType::PlainText, content: " t".to_string() },
    ];
    let spans = render_inline_spans(&nodes, TuiStyle::plain());
    let texts: Vec<String> = spans.iter().map(|s| s.content.clone()).collect();
    assert_eq!(texts, vec!["b".to_string(), "c".to_string(), " t".to_string()]);
    assert!(spans[0].style.bold);
    let none = render_inline_spans(&Vec::new(), TuiStyle::plain().italic());
    assert_eq!(none.len(), 1);
    assert_eq!(none[0].content, "");
    assert_eq!(none[0].style, TuiStyle::plain());
    let lines = render_plain_lines("a\r\nb\n", TuiStyle::plain());
    assert_eq!(lines.len(), 2);
    assert_eq!(span_texts(&lines[0]), vec!["a".to_string()]);
}

#[test]
fn proxy_invocation_forwards_params_and_context() {
    let t = tool(
        "proxy",
        &[("tool_name", " pkg:t "), ("params", "{\"x\":1,\"s\":\"v\",\"n\":null}"), ("__operit_package_chat_id", " c1 ")],
    );
    let (parsed, error) = parseProxyInvocation(&t, true);
    assert!(error.is_none());
    let parsed = parsed.unwrap();
    assert_eq!(parsed.targetToolName, "pkg:t");
    let fwd: Vec<(String, String)> =
        parsed.forwardedParameters.iter().map(|p| (p.name.clone(), p.value.clone())).collect();
    assert!(fwd.contains(&("x".to_string(), "1".to_string())));
    assert!(fwd.contains(&("s".to_string(), "v".to_string())));
    assert!(fwd.contains(&("n".to_string(), "null".to_string())));
    assert_eq!(fwd.last().unwrap(), &("__operit_package_chat_id".to_string(), "c1".to_string()));
    assert_eq!(fwd.len(), 4);
}

#[test]
fn proxy_invocation_refusals() {
    let err = |t: &AITool, q: bool| parseProxyInvocation(t, q).1.unwrap().error.unwrap();
    assert_eq!(
        err(&tool("p", &[("foo", "1"), ("tool_name", "a"), ("bar", "2")]), false),
        "Unexpected parameters: foo, bar. Only tool_name, params, and supported system context parameters are allowed"
    );
    assert_eq!(err(&tool("p", &[("params", "{}")]), false), "Exactly one tool_name parameter is required");
    assert_eq!(err(&tool("p", &[("tool_name", "  "), ("params", "{}")]), false), "Missing required parameter: tool_name");
    assert_eq!(
        err(&tool("p", &[("tool_name", "plain"), ("params", "{}")]), true),
        "tool_name must use packageName:toolName format"
    );
    assert_eq!(err(&tool("p", &[("tool_name", "a")]), false), "Exactly one params parameter is required");
    assert_eq!(err(&tool("p", &[("tool_name", "a"), ("params", " ")]), false), "params must be a JSON object");
    assert_eq!(err(&tool("p", &[("tool_name", "a"), ("params", "{")]), false), "params must be a valid JSON object");
    assert_eq!(err(&tool("p", &[("tool_name", "a"), ("params", "[1]")]), false), "params must be a JSON object");
    let r = parseProxyInvocation(&tool("p", &[("tool_name", "a"), ("params", "{}")]), false).1;
    assert!(r.is_none());
    let refused = parseProxyInvocation(&tool("the_proxy", &[]), false).1.unwrap();
    assert_eq!(refused.toolName, "the_proxy");
    assert!(!refused.success);
}

#[test]
fn required_parameter_is_trimmed() {
    let t = tool("x", &[("a", "  v  "), ("a", "w")]);
    assert_eq!(requiredParameterValue(&t, "a"), "v");
    assert_eq!(requiredParameterValue(&t, "b"), "");
}

#[test]
fn browser_parameters_are_checked() {
    let check = |t: &AITool, ctx: Option<&str>| {
        let r = validate_browser_parameters(t, ctx.map(|s| s.to_string()));
        (r.valid, r.errorMessage)
    };
    assert_eq!(
        check(&tool("browser_navigate", &[]), None),
        (false, "chat_id is required for browser automation.".to_string())
    );
    assert_eq!(check(&tool("browser_navigate", &[("chat_id", "c")]), None), (false, "url is required.".to_string()));
    assert_eq!(check(&tool("browser_navigate", &[("url", "u")]), Some("ctx")), (true, String::new()));
    assert_eq!(
        check(&tool("browser_type", &[("chat_id", "c"), ("ref", "r"), ("text", " ")]), None),
        (false, "text is required.".to_string())
    );
    assert_eq!(
        check(&tool("browser_click", &[("chat_id", "c")]), None),
        (false, "ref or selector is required.".to_string())
    );
    assert_eq!(check(&tool("browser_click", &[("chat_id", "c"), ("selector", "#a")]), None), (true, String::new()));
    assert_eq!(
        check(&tool("browser_wait_for", &[("chat_id", "c")]), None),
        (false, "time, text, or textGone is required.".to_string())
    );
}

#[test]
fn host_path_refusal() {
    assert!(PathValidator::validateHostPath(Ok(()), "read_file").is_none());
    let r = PathValidator::validateHostPath(Err("outside the workspace".to_string()), "read_file").unwrap();
    assert_eq!(r.toolName, "read_file");
    assert!(!r.success);
    assert_eq!(r.error, Some("outside the workspace".to_string()));
}

#[test]
fn skill_metadata_is_read() {
    assert_eq!(unquote("  'x'  "), "x");
    assert_eq!(unquote("\"q\""), "q");
    assert_eq!(unquote("\""), "\"");
    let (n, d) = parseSkillMetadataContent("---\nname: Demo\ndescription: \"Does things\"\n---\nbody");
    assert_eq!((n.as_str(), d.as_str()), ("Demo", "Does things"));
    let (n, d) = parseSkillMetadataContent("Name: X\nDESCRIPTION: 'Y'\n:skip\nname: Z");
    assert_eq!((n.as_str(), d.as_str()), ("X", "Y"));
    let (n, d) = parseSkillMetadataContent("---\nname: A\n---\ndescription: B");
    assert_eq!((n.as_str(), d.as_str()), ("A", "B"));
}

#[test]
fn skills_scan_reports_problems() {
    let dirs = vec![
        ScannedSkillDirectory {
            dirName: "d1".to_string(),
            dirPath: "/s/d1".to_string(),
            skillFile: Some("/s/d1/SKILL.md".to_string()),
            metadata: Ok(("A".to_string(), "first".to_string())),
        },
        ScannedSkillDirectory {
            dirName: "d2".to_string(),
            dirPath: "/s/d2".to_string(),
            skillFile: Some("/s/d2/SKILL.md".to_string()),
            metadata: Ok(("A".to_string(), "second".to_string())),
        },
        ScannedSkillDirectory {
            dirName: "d3".to_string(),
            dirPath: "/s/d3".to_string(),
            skillFile: None,
            metadata: Ok((String::new(), String::new())),
        },
        ScannedSkillDirectory {
            dirName: "d4".to_string(),
            dirPath: "/s/d4".to_string(),
            skillFile: Some("/s/d4/skill.md".to_string()),
            metadata: Ok(("  ".to_string(), "named by its directory".to_string())),
        },
        ScannedSkillDirectory {
            dirName: "d5".to_string(),
            dirPath: "/s/d5".to_string(),
            skillFile: Some("/s/d5/SKILL.md".to_string()),
            metadata: Err("denied".to_string()),
        },
    ];
    let (skills, errors) = skills_from_scan(&dirs);
    assert_eq!(skills.len(), 2);
    assert_eq!(skills.get("A").unwrap().description, "first");
    assert_eq!(skills.get("d4").unwrap().directory, "/s/d4");
    assert_eq!(errors.get("d2").unwrap(), "Duplicate scanned skill name: A already loaded from d1");
    assert_eq!(errors.get("d3").unwrap(), "Missing SKILL.md in /s/d3");
    assert_eq!(errors.get("d5").unwrap(), "Failed to scan skill: denied");
    let prompt = getSkillSystemPrompt(&skills, "A", "now", "tree", "body").unwrap();
    assert!(prompt.starts_with("Using package (Skill): A\nUse Time: now\nExecution policy:\n"));
    assert!(prompt.contains("Description: first\n"));
    assert!(prompt.ends_with("Directory structure:\ntree\n\nSKILL.md:\nbody\n"));
    assert!(getSkillSystemPrompt(&skills, "missing", "now", "tree", "body").is_none());
}

#[test]
fn watch_channels_track_subscriptions() {
    let mut registry = WatchChannelRegistry::new();
    assert!(registry.check_channel("c").is_err());
    assert!(registry.open_channel("c".to_string()).is_empty());
    assert!(registry.check_channel("c").is_ok());
    let r = registry.attach("c", "s1".to_string()).ok().unwrap();
    assert_eq!(r.subscriptionId, "s1");
    let refused = registry.attach("other", "s2".to_string());
    match refused {
        Err(e) => assert_eq!(e.code, "WATCH_CHANNEL_NOT_FOUND"),
        Ok(_) => panic!("closed channel accepted a watch"),
    }
    assert_eq!(registry.open_channel("c".to_string()), vec!["s1".to_string()]);
    registry.attach("c", "s3".to_string()).ok().unwrap();
    assert!(registry.close_subscription("c", "s3"));
    assert!(!registry.close_subscription("c", "s3"));
    registry.attach("c", "s4".to_string()).ok().unwrap();
    assert_eq!(registry.remove_channel("c"), vec!["s4".to_string()]);
    assert!(registry.check_channel("c").is_err());
}

#[test]
fn connection_test_report() {
    let mut run = ConnectionTestRun::new();
    assert_eq!(run.next_case(), Some(ModelConnectionTestType::CHAT));
    run.record(Ok(()));
    assert_eq!(run.next_case(), Some(ModelConnectionTestType::TOOL_CALL));
    run.record(Err("no tools".to_string()));
    run.record(Ok(()));
    run.record(Ok(()));
    assert_eq!(run.next_case(), Some(ModelConnectionTestType::VIDEO));
    run.record(Ok(()));
    assert_eq!(run.next_case(), None);
    assert_eq!(run.items[1].error, Some("no tools".to_string()));
    let tool = ModelConfigConnectionTester::echoToolPrompt();
    assert_eq!(tool.name, "echo");
    let history = ModelConfigConnectionTester::tool_call_history("t1", "r1");
    assert_eq!(history[1].1, "<t1 name=\"echo\"><param name=\"text\">ping</param></t1>");
    assert_eq!(
        ModelConfigConnectionTester::media_prompt("<img id=1>", ModelConnectionTestType::AUDIO),
        "<img id=1>\nPlease analyze this audio briefly."
    );
}

#[test]
fn runtime_holder_syncs_selection() {
    let mut holder = ChatRuntimeHolder::new();
    assert_eq!(holder.mainCore.as_ref().unwrap().selectionMode, ChatSelectionMode::FOLLOW_GLOBAL);
    assert_eq!(holder.floatingCore.as_ref().unwrap().selectionMode, ChatSelectionMode::LOCAL_ONLY);
    holder.syncMainChatSelectionToFloating("  ".to_string());
    assert!(holder.floatingCore.as_ref().unwrap().currentChatId.is_none());
    holder.syncMainChatSelectionToFloating("chat-9".to_string());
    assert_eq!(holder.floatingCore.as_ref().unwrap().currentChatId, Some("chat-9".to_string()));
    assert!(holder.mainCore.as_ref().unwrap().currentChatId.is_none());
    holder.floatingCore.as_mut().unwrap().activeStreamingChatIds.push("chat-9".to_string());
    holder.floatingCore.as_mut().unwrap().currentTurnToolInvocationCountByChatId.insert("chat-9".to_string(), 3);
    holder.observeStats();
    assert_eq!(holder.activeConversationCount, 1);
    assert_eq!(holder.currentSessionToolCount, 3);
}

#[test]
fn application_setup() {
    let mut app = OperitApplication::new();
    assert!(!app.initialized);
    assert_eq!(app.onCreate(42, Err("bad prefs".to_string())), Err("bad prefs".to_string()));
    assert_eq!(app.appStartupTimeMs, 42);
    assert!(!app.initialized);
    assert_eq!(app.onCreate(43, Ok(())), Ok(()));
    assert!(app.initialized);
    assert_eq!(
        app.initUserPreferencesManager(Err("m".to_string()), Err("f".to_string())),
        Err("m".to_string())
    );
    assert_eq!(app.initUserPreferencesManager(Ok(()), Err("f".to_string())), Err("f".to_string()));
}

#[test]
fn response_stream_round_trip() {
    let chunks = vec!["a".to_string(), "b".to_string()];
    assert_eq!(collect_stream_chunks(response_stream_from_chunks(chunks.clone())), chunks);
    assert!(collect_stream_chunks(empty_response_stream()).is_empty());
}

#[test]
fn retry_delay_doubles() {
    assert_eq!(LlmRetryPolicy::nextDelayMs(-3), 1000);
    assert_eq!(LlmRetryPolicy::nextDelayMs(1), 1000);
    assert_eq!(LlmRetryPolicy::nextDelayMs(4), 8000);
    assert_eq!(LlmRetryPolicy::MAX_RETRY_ATTEMPTS, 5);
}

#[test]
fn mimo_adds_api_key_header_once() {
    let make = |headers: Vec<(String, String)>, key: &str| {
        MimoProvider::new(
            "e".to_string(),
            key.to_string(),
            "m".to_string(),
            "MIMO".to_string(),
            headers,
            false,
            false,
            false,
            true,
        )
    };
    let p = make(vec![("X-A".to_string(), "1".to_string())], "secret");
    assert_eq!(p.custom_headers.len(), 2);
    assert_eq!(p.custom_headers[1], ("api-key".to_string(), "secret".to_string()));
    let p = make(vec![("API-Key".to_string(), "mine".to_string())], "secret");
    assert_eq!(p.custom_headers.len(), 1);
    let p = make(Vec::new(), "  ");
    assert!(p.custom_headers.is_empty());
    assert!(eq_ignore_case("Api-KEY", "api-key"));
    assert!(!eq_ignore_case("api-keys", "api-key"));
}

#[test]
fn package_tool_names() {
    let text = || LocalizedText { values: StrMap::new() };
    let tool = |name: &str, advice: bool, script: &str| PackageTool {
        name: name.to_string(),
        description: text(),
        parameters: Vec::new(),
        script: script.to_string(),
        advice,
    };
    let package = ToolPackage {
        name: "pkg".to_string(),
        description: text(),
        tools: vec![tool("run", false, "/* MCPJS */"), tool("hint", true, ""), tool("go", false, "")],
        states: Vec::new(),
        env: Vec::new(),
        is_built_in: false,
        enabled_by_default: false,
        display_name: text(),
        category: "Other".to_string(),
        author: Vec::new(),
    };
    assert_eq!(package.executable_tool_names(), vec!["pkg:run".to_string(), "pkg:go".to_string()]);
    assert!(package.is_mcp_package());
}

#[test]
fn fn_tool_executor_runs_its_functions() {
    let mut executor = operit::tools::FnToolExecutor {
        name: "sleep".to_string(),
        invoke: |tool: &operit::tool_calls::AITool| operit::tool_calls::ToolResult {
            toolName: tool.name.clone(),
            success: true,
            result: "{}".to_string(),
            error: None,
        },
        validate: |_tool: &operit::tool_calls::AITool| operit::tool_calls::ToolValidationResult {
            valid: true,
            errorMessage: String::new(),
        },
    };
    let call = operit::tool_calls::AITool { name: "sleep".to_string(), parameters: Vec::new() };
    assert!(executor.validateParameters(&call).valid);
    let results = executor.invokeAndStream(&call);
    assert_eq!(results.len(), 1);
    assert_eq!(results[0].toolName, "sleep");
    assert_eq!(executor.name, "sleep");
}

fn asset(skill: &str, path: &str, content: &str) -> operit::skill::BundledSkillAsset {
    operit::skill::BundledSkillAsset { skill_name: skill.to_string(), path: path.to_string(), content: content.to_string() }
}

#[test]
fn bundled_skill_candidates_skip_installed_skills() {
    let assets = vec![
        asset("zeta", "SKILL.md", "---\nname: Zeta Tools\ndescription: does z\n---\nbody"),
        asset("alpha", "scripts/run.sh", "echo"),
        asset("alpha", "skill.md", "description: first alpha"),
        asset("alpha", "SKILL.md", "name: other"),
        asset("mid", "SKILL.md", "name: Mid"),
    ];
    let mut installed: StrMap<operit::skill::SkillPackage> = StrMap::new();
    installed.insert(
        "Mid".to_string(),
        operit::skill::SkillPackage {
            name: "Mid".to_string(),
            description: String::new(),
            directory: "/skills/mid".to_string(),
            skillFile: "/skills/mid/SKILL.md".to_string(),
        },
    );
    let candidates = operit::skill::getBundledExternalSkillCandidates(&assets, &installed);
    let shown: Vec<(String, String)> = candidates.iter().map(|c| (c.name.clone(), c.description.clone())).collect();
    assert_eq!(
        shown,
        vec![
            ("alpha".to_string(), "first alpha".to_string()),
            ("Zeta Tools".to_string(), "does z".to_string()),
        ]
    );
}

#[test]
fn bundled_asset_paths_are_normalized() {
    use_asset_path("scripts/run.sh", Ok("scripts/run.sh"));
    use_asset_path("a//b/./c", Ok("a/b/c"));
    use_asset_path("a/", Ok("a"));
    use_asset_path("/abs", Err("Invalid plugin type asset path: /abs"));
    use_asset_path("../x", Err("Invalid plugin type asset path: ../x"));
    use_asset_path("a/../x", Err("Invalid plugin type asset path: a/../x"));
    use_asset_path("./x", Err("Invalid plugin type asset path: ./x"));
    use_asset_path("", Err("Invalid plugin type asset path: "));
}

fn use_asset_path(path: &str, expected: Result<&str, &str>) {
    let got = operit::skill::normalizeAssetRelativePath(path);
    assert_eq!(got, expected.map(|s| s.to_string()).map_err(|s| s.to_string()));
}

#[test]
fn skill_import_names_and_messages() {
    use_import_subdir(Some("  /skills/demo/ "), Some("skills/demo"));
    use_import_subdir(Some(" // "), None);
    use_import_subdir(None, None);
    assert_eq!(operit::skill::import_dir_name("  Meta  ", false, Some("dir".to_string()), Some("zipname".to_string())), "Meta");
    assert_eq!(operit::skill::import_dir_name("", true, Some("dir".to_string()), Some("zipname".to_string())), "zipname");
    assert_eq!(operit::skill::import_dir_name("", false, Some(" dir ".to_string()), Some("zipname".to_string())), "dir");
    assert_eq!(operit::skill::import_dir_name("", false, Some("  ".to_string()), None), "skill");
    assert_eq!(operit::skill::import_dir_name(" ", false, None, Some("  ".to_string())), "skill");
    assert_eq!(operit::skill::no_skill_file_text(true), "No SKILL.md found in the selected import path");
    assert_eq!(operit::skill::no_skill_file_text(false), "No SKILL.md found in the imported zip");
    assert_eq!(operit::skill::imported_text("demo", "  "), "Imported skill: demo");
    assert_eq!(operit::skill::imported_text("demo", "does things"), "Imported skill: demo - does things");
}

fn use_import_subdir(sub: Option<&str>, expected: Option<&str>) {
    assert_eq!(operit::skill::normalize_import_subdir(sub), expected.map(|s| s.to_string()));
}

#[test]
fn browser_parameters_json_matches_serde() {
    let t = tool("browser_type", &[("text", "a\"b"), ("ref", "r1"), ("chat_id", "old"), ("text", "second")]);
    let got = browserParametersJson(&t, "chat-9");
    assert_eq!(got, "{\"chat_id\":\"chat-9\",\"ref\":\"r1\",\"text\":\"second\"}");
    let mut m = serde_json::Map::new();
    for p in &t.parameters {
        m.insert(p.name.clone(), serde_json::Value::String(p.value.clone()));
    }
    m.insert("chat_id".to_string(), serde_json::Value::String("chat-9".to_string()));
    assert_eq!(got, serde_json::Value::Object(m).to_string());
    assert_eq!(browserParametersJson(&tool("browser_tabs", &[]), "c"), "{\"chat_id\":\"c\"}");
}

#[test]
fn browser_tool_result_carries_outcome() {
    let t = tool("browser_click", &[]);
    let ok = browser_tool_result(&t, Ok("clicked".to_string()));
    assert!(ok.success);
    assert_eq!(ok.result, "clicked");
    assert_eq!(ok.error, None);
    let err = browser_tool_result(&t, Err("no page".to_string()));
    assert!(!err.success);
    assert_eq!(err.result, "");
    assert_eq!(err.error, Some("no page".to_string()));
    assert_eq!(err.toolName, "browser_click");
}
