use operit::ai_service::ToolParameterSchema;
use operit::jsontext::{buildToolParametersJson, json_string_literal, systemToolPromptToModelToolPrompt, SystemToolPrompt};
use operit::cli::{find_new_ai_reply, last_ai_timestamp, parse_chat_send_args, parse_cli_args, CliCommand};
use operit::watch::drain_complete_lines;
use operit::commands::{active_command_prefix, command_specs, complete_command_input, matching_command_specs};
use operit::helpers::{
    char_to_byte_index, short_chat_label, split_command_line, transcript_max_scroll, utf8_byte_len,
    wrap_approx_lines,
};
use operit::markdown::{
    is_table_separator, parse_markdown_link, split_ordered_marker, strip_block_quote_marker,
    strip_inline_latex_delimiters, strip_latex_block_delimiters, strip_pair, strip_unordered_marker,
};
use operit::mdns::{decimal_text, mdns_ipv4_rank, operit_mdns_hostname, DeviceDiscovery, DiscoveredDevice};
use operit::round::ConversationRoundManager;
use operit::strmap::StrMap;

fn strings(items: &[&str]) -> Vec<String> {
    items.iter().map(|s| s.to_string()).collect()
}

#[test]
fn short_chat_label_keeps_eight_characters() {
    assert_eq!(short_chat_label("0123456789abcdef"), "01234567");
    assert_eq!(short_chat_label("abc"), "abc");
    assert_eq!(short_chat_label("éèêëēėęě-tail"), "éèêëēėęě");
}

#[test]
fn char_to_byte_index_counts_utf8_bytes() {
    assert_eq!(char_to_byte_index("héllo", 2), 3);
    assert_eq!(char_to_byte_index("héllo", 0), 0);
    assert_eq!(char_to_byte_index("abc", 10), 3);
    assert_eq!(utf8_byte_len("héllo"), 6);
}

#[test]
fn wrap_approx_lines_breaks_at_width() {
    assert_eq!(wrap_approx_lines("abcdef\n\nxy", 4), strings(&["abcd", "ef", "", "xy"]));
    assert_eq!(wrap_approx_lines("", 3), strings(&[""]));
    assert_eq!(wrap_approx_lines("abcd", 2), strings(&["ab", "cd"]));
    assert_eq!(wrap_approx_lines("ab", 0), strings(&["a", "b"]));
}

#[test]
fn transcript_max_scroll_leaves_room_for_borders() {
    assert_eq!(transcript_max_scroll(10, 5), 7);
    assert_eq!(transcript_max_scroll(2, 10), 0);
    assert_eq!(transcript_max_scroll(4, 1), 4);
}

#[test]
fn split_command_line_handles_quotes_and_escapes() {
    assert_eq!(
        split_command_line(r#"new --character "A B" 'c d' e\ f"#),
        Ok(strings(&["new", "--character", "A B", "c d", "e f"]))
    );
    assert_eq!(split_command_line(r#""a\"b""#), Ok(strings(&["a\"b"])));
    assert_eq!(split_command_line("  "), Ok(Vec::new()));
    assert_eq!(split_command_line("x\\"), Ok(strings(&["x\\"])));
}

#[test]
fn split_command_line_refuses_unterminated_quote() {
    assert_eq!(split_command_line("\"abc"), Err("unterminated quote".to_string()));
    assert_eq!(split_command_line("it's"), Err("unterminated quote".to_string()));
}

#[test]
fn command_table_and_prefixes() {
    let specs = command_specs();
    assert_eq!(specs.len(), 8);
    assert_eq!(specs[0].name, "help");
    assert_eq!(specs[7].name, "exit");
    assert_eq!(active_command_prefix("/he"), Some("he"));
    assert_eq!(active_command_prefix("/he x"), None);
    assert_eq!(active_command_prefix("he"), None);
    assert_eq!(active_command_prefix("/"), Some(""));
}

#[test]
fn matching_command_specs_filters_by_prefix() {
    let names: Vec<&str> = matching_command_specs("/at").iter().map(|s| s.name).collect();
    assert_eq!(names, vec!["attach", "attachments"]);
    assert_eq!(matching_command_specs("/").len(), 8);
    assert!(matching_command_specs("/zzz").is_empty());
    assert!(matching_command_specs("at").is_empty());
}

#[test]
fn complete_command_input_keeps_the_arguments() {
    assert_eq!(complete_command_input("/att  foo", "attach"), ("/attach foo".to_string(), 8));
    assert_eq!(complete_command_input("/q", "quit"), ("/quit ".to_string(), 6));
}

#[test]
fn markdown_delimiters_are_stripped() {
    assert_eq!(strip_pair("**x**", "**"), Some("x".to_string()));
    assert_eq!(strip_pair("*", "*"), None);
    assert_eq!(strip_pair("`a", "`"), None);
    assert_eq!(strip_latex_block_delimiters("  $$ x^2 $$ "), "x^2");
    assert_eq!(strip_latex_block_delimiters("\\[ a \\]"), "a");
    assert_eq!(strip_latex_block_delimiters(" plain "), "plain");
    assert_eq!(strip_inline_latex_delimiters("$x$"), "x");
    assert_eq!(strip_inline_latex_delimiters("\\(y\\)"), "y");
    assert_eq!(strip_inline_latex_delimiters("z"), "z");
}

#[test]
fn markdown_list_markers() {
    assert_eq!(strip_unordered_marker("  - item"), "item");
    assert_eq!(strip_unordered_marker("* star"), "star");
    assert_eq!(strip_unordered_marker("  plain"), "plain");
    assert_eq!(split_ordered_marker("12. text"), ("12. ".to_string(), "text".to_string()));
    assert_eq!(split_ordered_marker("a. b"), ("1. ".to_string(), "a. b".to_string()));
    assert_eq!(split_ordered_marker("no dot"), ("1. ".to_string(), "no dot".to_string()));
    assert_eq!(split_ordered_marker(".x"), (". ".to_string(), "x".to_string()));
}

#[test]
fn markdown_quotes_tables_links() {
    assert_eq!(strip_block_quote_marker("> a\n  >b\nc"), "a\nb\nc");
    assert!(is_table_separator("|---|:--:|"));
    assert!(!is_table_separator("|--|a|"));
    assert!(!is_table_separator("||"));
    assert_eq!(
        parse_markdown_link("[text](http://x)"),
        Some(("text".to_string(), "http://x".to_string()))
    );
    assert_eq!(parse_markdown_link("no link"), None);
    assert_eq!(parse_markdown_link("[a](b"), None);
}

#[test]
fn round_manager_tracks_rounds_and_text() {
    let mut m = ConversationRoundManager::new();
    assert_eq!(m.get_current_round(), 0);
    assert_eq!(m.update_content("hello".to_string()), "hello");
    assert_eq!(m.append_content(" world"), "hello world");
    assert_eq!(m.start_new_round(), 1);
    assert_eq!(m.get_display_content(), "hello world");
    m.clear_content();
    assert_eq!(m.get_raw_content(), "");
    assert_eq!(m.get_current_round(), 1);
    m.initialize_new_conversation();
    assert_eq!(m.get_current_round(), 0);
}

#[test]
fn strmap_keeps_keys_sorted() {
    let mut m: StrMap<u32> = StrMap::new();
    assert_eq!(m.insert("b".to_string(), 2), None);
    assert_eq!(m.insert("a".to_string(), 1), None);
    assert_eq!(m.insert("c".to_string(), 3), None);
    assert_eq!(m.insert("b".to_string(), 20), Some(2));
    assert_eq!(m.keys(), strings(&["a", "b", "c"]));
    assert_eq!(m.get("b"), Some(&20));
    assert_eq!(m.remove("a"), Some(1));
    assert!(!m.contains_key("a"));
    assert_eq!(m.len(), 2);
    assert_eq!(m.into_values(), vec![20, 3]);
}

#[test]
fn mdns_names_and_ranks() {
    assert_eq!(decimal_text(0), "0");
    assert_eq!(decimal_text(9050), "9050");
    assert_eq!(operit_mdns_hostname(42, 9050), "operit-42-9050.local.");
    let private = mdns_ipv4_rank([192, 168, 1, 2]);
    let public = mdns_ipv4_rank([8, 8, 8, 8]);
    let link_local = mdns_ipv4_rank([169, 254, 0, 1]);
    let loopback = mdns_ipv4_rank([127, 0, 0, 1]);
    assert!(private < public && public < link_local && link_local < loopback);
    assert_eq!(mdns_ipv4_rank([10, 0, 0, 1]), 0x0A00_0001);
}

fn device(id: &str) -> DiscoveredDevice {
    DiscoveredDevice {
        device_id: id.to_string(),
        display_name: id.to_string(),
        platform: "linux".to_string(),
        model: "pc".to_string(),
        base_url: String::new(),
        hostname: "h.local.".to_string(),
        port: 9050,
        token_hash: String::new(),
        version: "1".to_string(),
    }
}

#[test]
fn discovery_keeps_the_best_address() {
    let mut d = DeviceDiscovery::new();
    assert_eq!(d.on_service_resolved("svc".to_string(), &Vec::new(), device("none")), None);
    let r1 = d.on_service_resolved("svc".to_string(), &vec![[8, 8, 8, 8]], device("first"));
    assert_eq!(r1, Some(mdns_ipv4_rank([8, 8, 8, 8])));
    let r2 = d.on_service_resolved("svc".to_string(), &vec![[127, 0, 0, 1], [192, 168, 0, 5]], device("second"));
    assert_eq!(r2, Some(mdns_ipv4_rank([192, 168, 0, 5])));
    let r3 = d.on_service_resolved("svc".to_string(), &vec![[127, 0, 0, 1]], device("third"));
    assert_eq!(r3, Some(mdns_ipv4_rank([127, 0, 0, 1])));
    let found = d.into_devices();
    assert_eq!(found.len(), 1);
    assert_eq!(found[0].device_id, "second");
}

#[test]
fn cli_arguments_name_the_command() {
    assert!(matches!(parse_cli_args(&Vec::new()), Ok(CliCommand::Usage)));
    assert!(matches!(parse_cli_args(&strings(&["model"])), Ok(CliCommand::ModelUsage)));
    assert!(matches!(parse_cli_args(&strings(&["model", "init"])), Ok(CliCommand::ModelInit)));
    assert!(matches!(parse_cli_args(&strings(&["model", "show"])), Ok(CliCommand::ModelShow { config_id: None })));
    match parse_cli_args(&strings(&["model", "set", "http://e", "m1", "cfg"])) {
        Ok(CliCommand::ModelSet { endpoint, model_name, config_id }) => {
            assert_eq!(endpoint, "http://e");
            assert_eq!(model_name, "m1");
            assert_eq!(config_id, Some("cfg".to_string()));
        },
        _ => panic!("expected model set"),
    }
    assert_eq!(
        parse_cli_args(&strings(&["model", "set", "http://e"])).err(),
        Some("usage: operit2 model set <endpoint> <model-name> [config-id]".to_string())
    );
    assert_eq!(
        parse_cli_args(&strings(&["model", "set-key"])).err(),
        Some("usage: operit2 model set-key <api-key> [config-id]".to_string())
    );
    assert!(matches!(parse_cli_args(&strings(&["chat", "new"])), Ok(CliCommand::ChatNew)));
    assert!(matches!(parse_cli_args(&strings(&["chat", "zzz"])), Ok(CliCommand::ChatUsage)));
    assert!(matches!(parse_cli_args(&strings(&["other"])), Ok(CliCommand::Usage)));
    match parse_cli_args(&strings(&["chat", "send", "--chat", "c1", "hello"])) {
        Ok(CliCommand::ChatSend { chat_id, message }) => {
            assert_eq!(chat_id, Some("c1".to_string()));
            assert_eq!(message, "hello");
        },
        _ => panic!("expected chat send"),
    }
    assert_eq!(parse_chat_send_args(&strings(&["hi"])), Ok((None, "hi".to_string())));
    assert_eq!(
        parse_chat_send_args(&strings(&["--chat", "c1"])),
        Err("usage: operit2 chat send [--chat <chat-id>] <message>".to_string())
    );
    assert!(parse_chat_send_args(&[]).is_err());
}

#[test]
fn newest_ai_reply_is_found() {
    let history = vec![
        ("user".to_string(), 5i64),
        ("ai".to_string(), 7i64),
        ("ai".to_string(), 3i64),
        ("user".to_string(), 9i64),
    ];
    assert_eq!(last_ai_timestamp(&history), 7);
    assert_eq!(last_ai_timestamp(&vec![("user".to_string(), 4i64)]), 0);
    assert_eq!(find_new_ai_reply(&history, 5), Some(1));
    assert_eq!(find_new_ai_reply(&history, 2), Some(2));
    assert_eq!(find_new_ai_reply(&history, 7), None);
}

#[test]
fn event_stream_lines_are_drained() {
    let mut buffer = b"{\"a\":1}\n\n{\"b\":2}\n{\"c\"".to_vec();
    let lines = drain_complete_lines(&mut buffer);
    assert_eq!(lines, vec![b"{\"a\":1}".to_vec(), b"{\"b\":2}".to_vec()]);
    assert_eq!(buffer, b"{\"c\"".to_vec());
    buffer.extend_from_slice(b":3}\n");
    assert_eq!(drain_complete_lines(&mut buffer), vec![b"{\"c\":3}".to_vec()]);
    assert!(buffer.is_empty());
}

fn schema(name: &str, kind: &str, description: &str, required: bool) -> ToolParameterSchema {
    ToolParameterSchema {
        name: name.to_string(),
        param_type: kind.to_string(),
        description: description.to_string(),
        required,
        default: None,
    }
}

#[test]
fn json_strings_match_serde_json() {
    for s in ["plain", "quote\"back\\slash", "tab\tline\nret\r", "\u{1}\u{1f}\u{8}\u{c}", "é✓", ""] {
        assert_eq!(json_string_literal(s), serde_json::to_string(s).unwrap());
    }
}

#[test]
fn tool_parameter_schema_text() {
    let params = vec![
        schema("path", "string", "File \"path\"", true),
        schema("limit", "integer", "Max lines", false),
        schema("path", "string", "Where", true),
    ];
    let text = buildToolParametersJson(&params);
    assert_eq!(
        text,
        "{\"properties\":{\"limit\":{\"description\":\"Max lines\",\"type\":\"integer\"},\"path\":{\"description\":\"Where\",\"type\":\"string\"}},\"required\":[\"path\",\"path\"],\"type\":\"object\"}"
    );
    let mut properties = serde_json::Map::new();
    let mut required = Vec::new();
    for p in &params {
        let mut inner = serde_json::Map::new();
        inner.insert("type".to_string(), serde_json::Value::String(p.param_type.clone()));
        inner.insert("description".to_string(), serde_json::Value::String(p.description.clone()));
        properties.insert(p.name.clone(), serde_json::Value::Object(inner));
        if p.required {
            required.push(serde_json::Value::String(p.name.clone()));
        }
    }
    let mut outer = serde_json::Map::new();
    outer.insert("type".to_string(), serde_json::Value::String("object".to_string()));
    outer.insert("properties".to_string(), serde_json::Value::Object(properties));
    outer.insert("required".to_string(), serde_json::Value::Array(required));
    assert_eq!(text, serde_json::Value::Object(outer).to_string());
    assert_eq!(
        buildToolParametersJson(&Vec::new()),
        "{\"properties\":{},\"required\":[],\"type\":\"object\"}"
    );
}

#[test]
fn system_tool_prompts_become_model_tool_prompts() {
    let tool = SystemToolPrompt {
        name: "read".to_string(),
        description: "Reads".to_string(),
        parameters_structured: vec![schema("path", "string", "p", true)],
        details: "d".to_string(),
        notes: "n".to_string(),
    };
    let t = systemToolPromptToModelToolPrompt(tool);
    assert_eq!(t.name, "read");
    assert_eq!(t.details, "d");
    assert_eq!(t.notes, "n");
    assert_eq!(t.parametersStructured.as_ref().map(|p| p.len()), Some(1));
    assert_eq!(
        t.parameters,
        "{\"properties\":{\"path\":{\"description\":\"p\",\"type\":\"string\"}},\"required\":[\"path\"],\"type\":\"object\"}"
    );
}
