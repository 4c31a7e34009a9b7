use discord_strive::callback::{
    build_claude_request, conclude_callback, is_debug_setting, system_prompt, with_user_message,
};
use discord_strive::claude::api::{
    build_api_messages, format_api_error, format_error, interpret_claude_reply, status_is_success,
    ClaudeReply,
};
use discord_strive::claude::context::{
    context_blocks, context_json_path, load_context_file_blocks, load_system_extension,
    system_md_path, ConfigLoad, SystemFileRead,
};
use discord_strive::claude::history::{
    cap_history, history_file_name, history_from_lines, jsonl_document, HistoryLine,
    MAX_HISTORY_MESSAGES,
};
use discord_strive::claude::types::{
    ClaudeContent, ClaudeResponse, ContentBlock, ContextConfig, FileRef, HistoryMessage,
    MessageContent,
};

fn msg(role: &str, content: &str) -> HistoryMessage {
    HistoryMessage { role: role.to_string(), content: content.to_string() }
}

fn doc(id: &str, title: Option<&str>) -> ContentBlock {
    ContentBlock::Document { file_id: id.to_string(), title: title.map(|t| t.to_string()) }
}

fn text_of(c: &MessageContent) -> Option<&str> {
    match c {
        MessageContent::Text(t) => Some(t.as_str()),
        MessageContent::Blocks(_) => None,
    }
}

#[test]
fn context_documents_go_with_the_first_user_message() {
    let history = vec![
        msg("assistant", "greeting"),
        msg("user", "first question"),
        msg("assistant", "first answer"),
        msg("user", "second question"),
    ];
    let out = build_api_messages(&history, vec![doc("file_1", Some("Doc")), doc("file_2", None)]);
    assert_eq!(out.len(), 4);
    assert_eq!(out[0].role, "assistant");
    assert_eq!(text_of(&out[0].content), Some("greeting"));
    assert_eq!(out[1].role, "user");
    match &out[1].content {
        MessageContent::Blocks(b) => {
            assert_eq!(b.len(), 3);
            assert!(matches!(&b[0], ContentBlock::Document { file_id, title: Some(t) } if file_id == "file_1" && t == "Doc"));
            assert!(matches!(&b[1], ContentBlock::Document { file_id, title: None } if file_id == "file_2"));
            assert!(matches!(&b[2], ContentBlock::Text { text } if text == "first question"));
        }
        MessageContent::Text(_) => panic!("expected blocks"),
    }
    assert_eq!(text_of(&out[2].content), Some("first answer"));
    assert_eq!(text_of(&out[3].content), Some("second question"));
}

#[test]
fn without_context_all_messages_are_text() {
    let history = vec![msg("user", "q"), msg("assistant", "a")];
    let out = build_api_messages(&history, Vec::new());
    assert_eq!(out.len(), 2);
    assert_eq!(out[0].role, "user");
    assert_eq!(text_of(&out[0].content), Some("q"));
    assert_eq!(text_of(&out[1].content), Some("a"));
}

#[test]
fn without_user_message_context_is_dropped() {
    let out = build_api_messages(&[msg("assistant", "a")], vec![doc("f", None)]);
    assert_eq!(out.len(), 1);
    assert_eq!(text_of(&out[0].content), Some("a"));
}

#[test]
fn format_error_plain_and_debug() {
    assert_eq!(format_error("Failed", "boom", Some("{}"), false), "Failed: boom");
    assert_eq!(format_error("Failed", "boom", Some("{\n}"), true), "Failed: boom\n\nRequest sent:\n{\n}");
    assert_eq!(
        format_error("Failed", "boom", None, true),
        "Failed: boom\n\nRequest sent:\nCould not serialize request"
    );
}

#[test]
fn format_api_error_shows_status_and_body() {
    assert_eq!(format_api_error("Model", 404, "nope", None, false), "Model API error (404 Not Found): nope");
    assert_eq!(
        format_api_error("Model", 529, "busy", Some("{}"), true),
        format!("Model API error ({}): busy\n\nRequest sent:\n{{}}", reqwest::StatusCode::from_u16(529).unwrap())
    );
}

#[test]
fn success_statuses() {
    assert!(status_is_success(200));
    assert!(status_is_success(299));
    assert!(!status_is_success(300));
    assert!(!status_is_success(199));
}

#[test]
fn reply_interpretation() {
    let ok = ClaudeReply::Decoded(ClaudeResponse {
        content: vec![ClaudeContent { text: "hi".to_string() }, ClaudeContent { text: "more".to_string() }],
    });
    assert_eq!(interpret_claude_reply(&ok, "Model", None, false), Ok("hi".to_string()));
    let empty = ClaudeReply::Decoded(ClaudeResponse { content: vec![] });
    assert_eq!(interpret_claude_reply(&empty, "Model", None, false), Err("No response content".to_string()));
    let down = ClaudeReply::Unreachable("dns".to_string());
    assert_eq!(interpret_claude_reply(&down, "Model", None, false), Err("Failed to reach Model API: dns".to_string()));
    let bad = ClaudeReply::Undecodable("eof".to_string());
    assert_eq!(
        interpret_claude_reply(&bad, "Model", Some("{}"), true),
        Err("Failed to parse Model response: eof\n\nRequest sent:\n{}".to_string())
    );
    let rejected = ClaudeReply::Rejected { status: 400, body: None };
    assert_eq!(
        interpret_claude_reply(&rejected, "Model", None, false),
        Err("Model API error (400 Bad Request): Unknown error".to_string())
    );
    let rejected = ClaudeReply::Rejected { status: 401, body: Some("bad key".to_string()) };
    assert_eq!(
        interpret_claude_reply(&rejected, "Model", None, false),
        Err("Model API error (401 Unauthorized): bad key".to_string())
    );
}

#[test]
fn context_blocks_follow_the_file_list() {
    let files = vec![
        FileRef { id: "a".to_string(), title: Some("A".to_string()) },
        FileRef { id: "b".to_string(), title: None },
    ];
    let blocks = context_blocks(&files);
    assert_eq!(blocks.len(), 2);
    assert!(matches!(&blocks[0], ContentBlock::Document { file_id, title: Some(t) } if file_id == "a" && t == "A"));
    assert!(matches!(&blocks[1], ContentBlock::Document { file_id, title: None } if file_id == "b"));
}

#[test]
fn context_loading_outcomes() {
    let (b, n) = load_context_file_blocks("/ctx", &ConfigLoad::ReadFailed("No such file".to_string()));
    assert!(b.is_empty());
    assert_eq!(n, vec!["[DEBUG] Context file error: Failed to read config at '/ctx': No such file".to_string()]);
    let (b, n) = load_context_file_blocks("/ctx", &ConfigLoad::ParseFailed("expected value".to_string()));
    assert!(b.is_empty());
    assert_eq!(n, vec!["[DEBUG] Context file error: Failed to parse config: expected value".to_string()]);
    let config = ContextConfig { files: vec![FileRef { id: "x".to_string(), title: None }] };
    let (b, n) = load_context_file_blocks("/ctx", &ConfigLoad::Loaded(config));
    assert_eq!(b.len(), 1);
    assert!(n.is_empty());
}

#[test]
fn system_extension_outcomes() {
    let (s, n) = load_system_extension("/ctx", &SystemFileRead::Found("Be brief.".to_string()));
    assert_eq!(s, "Be brief.");
    assert!(n.is_empty());
    let (s, n) = load_system_extension("/ctx", &SystemFileRead::NotFound);
    assert_eq!(s, "");
    assert!(n.is_empty());
    let (s, n) = load_system_extension("/ctx", &SystemFileRead::Failed("Permission denied".to_string()));
    assert_eq!(s, "");
    assert_eq!(n, vec!["[DEBUG] System file error: Failed to read '/ctx/system.md': Permission denied".to_string()]);
}

#[test]
fn context_paths() {
    assert_eq!(context_json_path("./context"), "./context/context.json");
    assert_eq!(system_md_path("./context"), "./context/system.md");
}

#[test]
fn history_file_is_named_by_channel_then_user() {
    assert_eq!(history_file_name("u1", "c9"), "c9_u1.jsonl");
}

#[test]
fn history_lines_skip_blank_and_malformed() {
    let lines = vec![
        HistoryLine::Message(msg("user", "a")),
        HistoryLine::Blank,
        HistoryLine::Malformed,
        HistoryLine::Message(msg("assistant", "b")),
    ];
    let h = history_from_lines(lines);
    assert_eq!(h.len(), 2);
    assert_eq!(h[0].content, "a");
    assert_eq!(h[1].role, "assistant");
}

#[test]
fn jsonl_document_ends_each_line() {
    let lines = vec!["{\"a\":1}".to_string(), "{\"b\":2}".to_string()];
    assert_eq!(jsonl_document(&lines), "{\"a\":1}\n{\"b\":2}\n");
    assert_eq!(jsonl_document(&[]), "");
}

#[test]
fn history_is_capped_at_fifty_newest() {
    let h: Vec<HistoryMessage> = (0..53).map(|i| msg("user", &i.to_string())).collect();
    let c = cap_history(h);
    assert_eq!(c.len(), MAX_HISTORY_MESSAGES);
    assert_eq!(c[0].content, "3");
    assert_eq!(c[49].content, "52");
    let short: Vec<HistoryMessage> = (0..5).map(|i| msg("user", &i.to_string())).collect();
    assert_eq!(cap_history(short).len(), 5);
}

#[test]
fn system_prompt_with_and_without_extension() {
    assert_eq!(
        system_prompt("Ann", ""),
        "You are Strive, a helpful AI assistant of the Morlencir Empire. The user is known as Ann."
    );
    assert_eq!(
        system_prompt("Ann", "Be kind."),
        "You are Strive, a helpful AI assistant of the Morlencir Empire. The user is known as Ann.\n\nBe kind."
    );
}

#[test]
fn debug_setting_values() {
    assert!(is_debug_setting(Some("1")));
    assert!(is_debug_setting(Some("true")));
    assert!(!is_debug_setting(Some("yes")));
    assert!(!is_debug_setting(Some("TRUE")));
    assert!(!is_debug_setting(None));
}

#[test]
fn request_uses_the_fixed_model() {
    let r = build_claude_request("model-x", "sys".to_string(), Vec::new());
    assert_eq!(r.model, "model-x");
    assert_eq!(r.max_tokens, 1024);
    assert_eq!(r.system, "sys");
}

#[test]
fn answer_is_stored_and_posted() {
    let h = with_user_message(vec![msg("user", "a"), msg("assistant", "b")], "c");
    assert_eq!(h.len(), 3);
    assert_eq!(h[2].role, "user");
    let notices = vec!["[DEBUG] note".to_string()];
    let out = conclude_callback(h, &notices, Ok("reply".to_string()));
    let saved = out.history_to_save.unwrap();
    assert_eq!(saved.len(), 4);
    assert_eq!(saved[3].role, "assistant");
    assert_eq!(saved[3].content, "reply");
    assert_eq!(out.discord_text, "[DEBUG] note\n\nreply");
}

#[test]
fn failure_is_posted_and_not_stored() {
    let out = conclude_callback(vec![msg("user", "q")], &[], Err("Failed to reach Model API: x".to_string()));
    assert!(out.history_to_save.is_none());
    assert_eq!(out.discord_text, "Failed to reach Model API: x");
}

#[test]
fn stored_conversation_keeps_newest_fifty_ending_with_answer() {
    let h: Vec<HistoryMessage> = (0..50).map(|i| msg("user", &i.to_string())).collect();
    let out = conclude_callback(h, &[], Ok("last".to_string()));
    let saved = out.history_to_save.unwrap();
    assert_eq!(saved.len(), 50);
    assert_eq!(saved[0].content, "1");
    assert_eq!(saved[49].content, "last");
}

#[test]
fn missing_context_file_is_not_an_error() {
    let (b, n) = load_context_file_blocks("/ctx", &ConfigLoad::NotFound);
    assert!(b.is_empty());
    assert!(n.is_empty());
}

#[test]
fn history_files_differ_per_user_and_channel() {
    assert_ne!(history_file_name("1", "23"), history_file_name("12", "3"));
    assert_ne!(history_file_name("u", "c1"), history_file_name("u", "c2"));
}
