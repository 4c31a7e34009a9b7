use discord_strive::callback::{parse_callback_args, CallbackArgs};
use discord_strive::discord::cgi::{cgi_json_response, greeting_response, has_signature_headers};
use discord_strive::discord::interaction::{
    command_text, handle_command, resolve_display_name, resolve_user_id, route_interaction,
    InteractionError, Route,
};
use discord_strive::discord::types::{
    CommandOption, Interaction, InteractionData, Member, OptionValue, User,
};
use discord_strive::discord::webhook::{webhook_message, webhook_url};

fn user(id: &str, username: Option<&str>, global: Option<&str>) -> User {
    User {
        id: id.to_string(),
        username: username.map(|s| s.to_string()),
        global_name: global.map(|s| s.to_string()),
    }
}

fn command(name: &str, options: Option<Vec<CommandOption>>) -> InteractionData {
    InteractionData { name: name.to_string(), options }
}

fn text_option(value: &str) -> CommandOption {
    CommandOption { name: "text".to_string(), value: OptionValue::Text(value.to_string()) }
}

fn interaction(kind: u8, data: Option<InteractionData>) -> Interaction {
    Interaction {
        interaction_type: kind,
        token: "tok".to_string(),
        id: "42".to_string(),
        application_id: "app1".to_string(),
        data,
        member: None,
        user: None,
        channel_id: None,
    }
}

#[test]
fn ping_is_answered_with_pong() {
    let i = interaction(1, None);
    let route = route_interaction(&i).unwrap();
    assert!(matches!(route, Route::Pong));
    assert_eq!(route.response().response_type, 1);
}

#[test]
fn strive_command_is_deferred_with_callback_arguments() {
    let mut i = interaction(2, Some(command("strive", Some(vec![text_option("hello there")]))));
    i.member = Some(Member { user: Some(user("u1", Some("alice"), Some("Alice"))), nick: Some("Al".to_string()) });
    i.channel_id = Some("chan".to_string());
    let route = route_interaction(&i).unwrap();
    assert_eq!(route.response().response_type, 5);
    match route {
        Route::Deferred(a) => {
            assert_eq!(a.app_id, "app1");
            assert_eq!(a.token, "tok");
            assert_eq!(a.user_id, "u1");
            assert_eq!(a.display_name, "Al");
            assert_eq!(a.channel_id, "chan");
            assert_eq!(a.text, "hello there");
        }
        Route::Pong => panic!("expected a deferred reply"),
    }
}

#[test]
fn missing_fields_fall_back_to_unknown() {
    let i = interaction(2, Some(command("strive", None)));
    let a = handle_command(&i).unwrap();
    assert_eq!(a.user_id, "unknown");
    assert_eq!(a.display_name, "someone");
    assert_eq!(a.channel_id, "unknown");
    assert_eq!(a.text, "");
}

#[test]
fn other_commands_are_refused() {
    let i = interaction(2, Some(command("ask", None)));
    assert_eq!(handle_command(&i).unwrap_err(), InteractionError::UnknownCommand("ask".to_string()));
}

#[test]
fn command_without_data_is_refused() {
    let i = interaction(2, None);
    assert!(matches!(route_interaction(&i), Err(InteractionError::MissingData)));
}

#[test]
fn other_interaction_types_are_refused() {
    let i = interaction(3, None);
    assert!(matches!(route_interaction(&i), Err(InteractionError::UnhandledType(3))));
}

#[test]
fn user_id_prefers_member_then_dm_user() {
    let mut i = interaction(2, None);
    i.user = Some(user("dm", None, None));
    assert_eq!(resolve_user_id(&i), "dm");
    i.member = Some(Member { user: None, nick: None });
    assert_eq!(resolve_user_id(&i), "dm");
    i.member = Some(Member { user: Some(user("m", None, None)), nick: None });
    assert_eq!(resolve_user_id(&i), "m");
}

#[test]
fn display_name_order() {
    let mut i = interaction(2, None);
    assert_eq!(resolve_display_name(&i), "someone");
    i.user = Some(user("dm", Some("dmuser"), None));
    assert_eq!(resolve_display_name(&i), "dmuser");
    i.user = Some(user("dm", Some("dmuser"), Some("DM Global")));
    assert_eq!(resolve_display_name(&i), "DM Global");
    i.member = Some(Member { user: Some(user("m", Some("muser"), None)), nick: None });
    assert_eq!(resolve_display_name(&i), "muser");
    i.member = Some(Member { user: Some(user("m", Some("muser"), Some("M Global"))), nick: None });
    assert_eq!(resolve_display_name(&i), "M Global");
    i.member = Some(Member { user: Some(user("m", Some("muser"), Some("M Global"))), nick: Some("Nick".to_string()) });
    assert_eq!(resolve_display_name(&i), "Nick");
}

#[test]
fn text_option_is_the_first_named_text_with_a_string_value() {
    let opts = vec![
        CommandOption { name: "mode".to_string(), value: OptionValue::Text("x".to_string()) },
        CommandOption { name: "text".to_string(), value: OptionValue::Other },
        text_option("later"),
    ];
    assert_eq!(command_text(&command("strive", Some(opts))), "");
    let opts = vec![
        CommandOption { name: "mode".to_string(), value: OptionValue::Text("x".to_string()) },
        text_option("first"),
        text_option("second"),
    ];
    assert_eq!(command_text(&command("strive", Some(opts))), "first");
}

#[test]
fn callback_arguments_round_trip_through_the_command_line() {
    let a = CallbackArgs {
        app_id: "app".to_string(),
        token: "tok".to_string(),
        user_id: "u".to_string(),
        display_name: "Name With Spaces".to_string(),
        channel_id: "c".to_string(),
        text: "".to_string(),
    };
    let mut argv = vec!["callback-handler".to_string()];
    argv.extend(a.to_argv());
    let b = parse_callback_args(&argv).unwrap();
    assert_eq!(b.app_id, a.app_id);
    assert_eq!(b.token, a.token);
    assert_eq!(b.user_id, a.user_id);
    assert_eq!(b.display_name, a.display_name);
    assert_eq!(b.channel_id, a.channel_id);
    assert_eq!(b.text, a.text);
}

#[test]
fn callback_arguments_need_five_values() {
    let argv: Vec<String> = ["prog", "a", "b", "c", "d"].iter().map(|s| s.to_string()).collect();
    assert!(parse_callback_args(&argv).is_none());
    let argv: Vec<String> = ["prog", "a", "b", "c", "d", "e"].iter().map(|s| s.to_string()).collect();
    let a = parse_callback_args(&argv).unwrap();
    assert_eq!(a.channel_id, "e");
    assert_eq!(a.text, "");
}

#[test]
fn greeting_without_signature_headers() {
    assert!(!has_signature_headers("", "123"));
    assert!(!has_signature_headers("abc", ""));
    assert!(has_signature_headers("abc", "123"));
    assert_eq!(greeting_response(), "Content-Type: text/plain\r\n\r\nStrive: Hello, there!");
}

#[test]
fn cgi_json_response_frames_the_body() {
    assert_eq!(
        cgi_json_response("{\"type\":5}"),
        "Status: 200 OK\r\nContent-Type: application/json\r\nContent-Length: 10\r\n\r\n{\"type\":5}"
    );
}

#[test]
fn cgi_content_length_counts_bytes() {
    let body = "{\"t\":\"é\"}";
    let framed = cgi_json_response(body);
    assert!(framed.contains(&format!("Content-Length: {}\r\n", body.len())));
    assert!(framed.ends_with(body));
    assert_eq!(body.len(), 10);
}

#[test]
fn webhook_url_points_at_deferred_reply() {
    assert_eq!(
        webhook_url("123", "abc"),
        "https://discord.com/api/v10/webhooks/123/abc/messages/@original"
    );
}

#[test]
fn webhook_message_is_cut_to_2000_characters() {
    let long = "é".repeat(2500);
    let m = webhook_message(&long);
    assert_eq!(m.content.chars().count(), 2000);
    assert_eq!(webhook_message("short").content, "short");
}

#[test]
fn interaction_error_messages() {
    assert_eq!(InteractionError::MissingData.message(), "Missing interaction data");
    assert_eq!(InteractionError::UnknownCommand("ask".to_string()).message(), "Unknown command: ask");
    assert_eq!(InteractionError::UnhandledType(4).message(), "Unhandled interaction type: 4");
}
