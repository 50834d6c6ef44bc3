use operit::tui::{
    chat_list_item, join_strings, loading_status_message, ChatListItem, FocusArea, InputProcessingState, KeyCodeIn,
    KeyInput, KeyKindIn, LocalCommandAction, OperitTui, SubmitAction, TuiKeyAction, MOD_CONTROL,
};

fn chats() -> Vec<ChatListItem> {
    vec![
        chat_list_item("chat-aaaaaaaaaa".to_string(), "First".to_string(), None, None),
        chat_list_item("chat-bbbbbbbbbb".to_string(), "Second".to_string(), None, None),
    ]
}

fn press(code: KeyCodeIn, modifiers: u8) -> KeyInput {
    KeyInput { code, modifiers, kind: KeyKindIn::Press }
}

#[test]
fn new_screen_selects_the_initial_chat() {
    let t = OperitTui::new(chats(), "chat-bbbbbbbbbb");
    assert_eq!(t.selected_chat_index, 1);
    assert_eq!(t.focus, FocusArea::Input);
    assert_eq!(
        t.status_message,
        "chat=chat-bbb | F3 chats | Enter send | Ctrl+J newline | Ctrl+N new chat | Ctrl+Q quit | ? help"
    );
    let u = OperitTui::new(chats(), "missing");
    assert_eq!(u.selected_chat_index, 0);
}

#[test]
fn ctrl_c_twice_quits() {
    let mut t = OperitTui::new(chats(), "chat-aaaaaaaaaa");
    let ctrl_c = press(KeyCodeIn::Char('c'), MOD_CONTROL);
    assert!(matches!(t.handle_key_event(ctrl_c), TuiKeyAction::Nothing));
    assert!(t.ctrl_c_pending);
    assert_eq!(t.status_message, "press Ctrl+C again to quit");
    assert!(!t.should_quit);
    t.handle_key_event(ctrl_c);
    assert!(t.should_quit);
}

#[test]
fn released_keys_do_nothing() {
    let mut t = OperitTui::new(chats(), "chat-aaaaaaaaaa");
    let key = KeyInput { code: KeyCodeIn::Char('q'), modifiers: MOD_CONTROL, kind: KeyKindIn::Release };
    assert!(matches!(t.handle_key_event(key), TuiKeyAction::Nothing));
    assert!(!t.should_quit);
}

#[test]
fn global_keys() {
    let mut t = OperitTui::new(chats(), "chat-aaaaaaaaaa");
    assert!(matches!(t.handle_key_event(press(KeyCodeIn::Char('n'), MOD_CONTROL)), TuiKeyAction::CreateNewChat));
    assert!(matches!(t.handle_key_event(press(KeyCodeIn::Char('r'), MOD_CONTROL)), TuiKeyAction::RefreshChats));
    assert_eq!(t.status_message, "chat list refreshed");
    let before = t.show_chat_list;
    t.handle_key_event(press(KeyCodeIn::F(3), 0));
    assert_eq!(t.show_chat_list, !before);
    t.handle_key_event(press(KeyCodeIn::Char('q'), MOD_CONTROL));
    assert!(t.should_quit);
}

#[test]
fn local_commands() {
    let mut t = OperitTui::new(chats(), "chat-aaaaaaaaaa");
    assert!(matches!(t.handle_local_command("/help"), Ok(LocalCommandAction::Nothing)));
    assert!(t.show_help);
    match t.handle_local_command("/new --character Alice") {
        Ok(LocalCommandAction::CreateNewChat(args)) => {
            assert_eq!(args, vec!["--character".to_string(), "Alice".to_string()])
        },
        _ => panic!("expected a new chat"),
    }
    assert_eq!(t.handle_local_command("/attach").err(), Some("usage: /attach <path>".to_string()));
    assert!(t.handle_local_command("/attach a.png").is_ok());
    assert!(t.handle_local_command("/attach 'b c.txt'").is_ok());
    assert_eq!(t.queued_attachment_paths, vec!["a.png".to_string(), "b c.txt".to_string()]);
    t.handle_local_command("/attachments").ok();
    assert_eq!(t.status_message, "attachments=a.png, b c.txt");
    t.handle_local_command("/clear-attachments").ok();
    assert!(t.queued_attachment_paths.is_empty());
    assert_eq!(t.status_message, "attachments cleared");
    t.handle_local_command("/attachments").ok();
    assert_eq!(t.status_message, "attachments=none");
    t.handle_local_command("/bogus").ok();
    assert_eq!(t.status_message, "unknown command: /bogus");
    assert!(matches!(t.handle_local_command("/switch"), Ok(LocalCommandAction::ToggledChatList)));
    assert!(t.handle_local_command("/\"open").is_err());
    t.handle_local_command("/exit").ok();
    assert!(t.should_quit);
}

#[test]
fn submit_sends_text_with_the_attachments() {
    let mut t = OperitTui::new(chats(), "chat-aaaaaaaaaa");
    t.handle_local_command("/attach a.png").ok();
    t.input = "hello there  ".to_string();
    t.input_cursor = 13;
    match t.submit_input(false, Some("chat-aaaaaaaaaa".to_string())) {
        Ok(SubmitAction::Send { chat_id, message, attachment_paths }) => {
            assert_eq!(chat_id, "chat-aaaaaaaaaa");
            assert_eq!(message, "hello there");
            assert_eq!(attachment_paths, vec!["a.png".to_string()]);
        },
        _ => panic!("expected a send"),
    }
    assert_eq!(t.input, "");
    assert_eq!(t.input_cursor, 0);
    assert!(t.queued_attachment_paths.is_empty());
    assert_eq!(t.status_message, "connecting...");
}

#[test]
fn submit_refuses_while_loading_or_without_chat() {
    let mut t = OperitTui::new(chats(), "chat-aaaaaaaaaa");
    t.input = "hi".to_string();
    assert!(matches!(t.submit_input(true, Some("x".to_string())), Ok(SubmitAction::Nothing)));
    assert_eq!(t.status_message, "request already running");
    assert_eq!(t.submit_input(false, None).err(), Some("no active chat in tui".to_string()));
    t.input = "   ".to_string();
    assert!(matches!(t.submit_input(false, Some("x".to_string())), Ok(SubmitAction::Nothing)));
    t.input = "/help".to_string();
    assert!(matches!(t.submit_input(false, Some("x".to_string())), Ok(SubmitAction::Command(LocalCommandAction::Nothing))));
    assert!(t.show_help);
    assert_eq!(t.input, "");
}

#[test]
fn runtime_status_follows_the_reply() {
    let mut t = OperitTui::new(chats(), "chat-aaaaaaaaaa");
    let refresh = t.refresh_runtime_status(
        "chat-aaaaaaaaaa",
        true,
        InputProcessingState::Receiving { message: "tokens".to_string() },
    );
    assert!(!refresh);
    assert_eq!(t.status_message, "receiving | chat=chat-aaa | tokens");
    assert!(t.current_chat_is_loading(false));
    let refresh = t.refresh_runtime_status("chat-aaaaaaaaaa", false, InputProcessingState::Completed);
    assert!(refresh);
    assert_eq!(t.status_message, "reply ready | chat=chat-aaa");
    assert!(!t.current_chat_is_loading(false));
}

#[test]
fn loading_status_lines() {
    assert_eq!(
        loading_status_message(
            InputProcessingState::ToolProgress { toolName: "grep".to_string(), message: "50%".to_string() },
            "abcdefghijk"
        ),
        "tool | chat=abcdefgh | grep 50%"
    );
    assert_eq!(
        loading_status_message(InputProcessingState::Error { message: "boom".to_string() }, "x"),
        "boom"
    );
    assert_eq!(loading_status_message(InputProcessingState::Idle, "x"), "streaming | chat=x");
}

#[test]
fn scrolling_stays_in_range() {
    let mut t = OperitTui::new(chats(), "chat-aaaaaaaaaa");
    t.transcript_max_scroll = 10;
    t.transcript_viewport_height = 4;
    t.scroll_transcript_to_top();
    assert_eq!(t.transcript_scroll, 0);
    assert!(!t.follow_transcript);
    t.scroll_transcript_down(7);
    assert_eq!(t.transcript_scroll, 7);
    t.scroll_transcript_down(100);
    assert_eq!(t.transcript_scroll, 10);
    assert!(t.follow_transcript);
    t.scroll_transcript_page_up();
    assert_eq!(t.transcript_scroll, 6);
    t.scroll_transcript_up(100);
    assert_eq!(t.transcript_scroll, 0);
    assert_eq!(t.transcript_half_page_step(), 2);
}

#[test]
fn join_strings_with_separator() {
    assert_eq!(join_strings(&vec!["a".to_string(), "b".to_string()], ", "), "a, b");
    assert_eq!(join_strings(&Vec::new(), ", "), "");
}

#[test]
fn keys_reach_the_focused_pane() {
    let mut t = OperitTui::new(chats(), "chat-aaaaaaaaaa");
    t.ctrl_c_pending = true;
    let key = press(KeyCodeIn::Char('x'), 0);
    assert!(matches!(t.handle_key_event(key), TuiKeyAction::InputKey(k) if k == key));
    assert!(!t.ctrl_c_pending);
    t.handle_key_event(press(KeyCodeIn::F(3), 0));
    assert_eq!(t.focus, FocusArea::Chats);
    t.handle_key_event(press(KeyCodeIn::Down, 0));
    assert_eq!(t.selected_chat_index, 1);
    assert!(matches!(
        t.handle_key_event(press(KeyCodeIn::Enter, 0)),
        TuiKeyAction::SwitchChat(id) if id == "chat-bbbbbbbbbb"
    ));
    t.handle_key_event(press(KeyCodeIn::Tab, 0));
    assert_eq!(t.focus, FocusArea::Input);
    t.transcript_viewport_height = 10;
    t.transcript_max_scroll = 40;
    t.transcript_scroll = 30;
    t.handle_key_event(press(KeyCodeIn::PageUp, 0));
    assert_eq!(t.transcript_scroll, 20);
    t.handle_key_event(press(KeyCodeIn::Char('d'), MOD_CONTROL));
    assert_eq!(t.transcript_scroll, 25);
}

#[test]
fn input_keys_edit_and_complete() {
    let mut t = OperitTui::new(chats(), "chat-aaaaaaaaaa");
    assert!(!t.apply_input_key(press(KeyCodeIn::Char('/'), 0)));
    assert!(!t.apply_input_key(press(KeyCodeIn::Char('c'), 0)));
    assert_eq!(t.input, "/c");
    assert_eq!(t.input_cursor, 2);
    assert!(!t.apply_input_key(press(KeyCodeIn::Tab, 0)));
    assert_eq!(t.input, "/clear-attachments ");
    assert_eq!(t.input_cursor, 19);
    t.input = "ac".to_string();
    t.input_cursor = 1;
    t.apply_input_key(press(KeyCodeIn::Char('b'), 0));
    assert_eq!(t.input, "abc");
    assert!(t.apply_input_key(press(KeyCodeIn::Enter, 0)));
    assert_eq!(t.input, "abc");
}

#[test]
fn submitted_commands_run() {
    let mut t = OperitTui::new(chats(), "chat-aaaaaaaaaa");
    t.input = "/attach a.png  ".to_string();
    t.input_cursor = 3;
    assert!(matches!(t.submit_input(false, None), Ok(SubmitAction::Command(LocalCommandAction::Nothing))));
    assert_eq!(t.input, "");
    assert_eq!(t.input_cursor, 0);
    assert_eq!(t.queued_attachment_paths, vec!["a.png".to_string()]);
    assert_eq!(t.status_message, "queued attachment: a.png (1 total)");
    t.input = "/new \"open".to_string();
    assert_eq!(t.submit_input(false, None).err(), Some("unterminated quote".to_string()));
    assert_eq!(t.input, "");
}
