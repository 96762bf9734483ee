use discord_bot::discord::commands::reply_to_command;
use discord_bot::discord::logic::{response_for_name, strip_command_prefix};
use discord_bot::discord::slash_commands::interaction_reply_with;
use discord_bot::discord::commands::{commands, handle_command, help_message, CommandAction};
use discord_bot::discord::logic::get_response_for;
use discord_bot::discord::slash_commands::{
    handle_interaction, register_slash_commands, send_interaction_reply,
};
use discord_bot::http::{HttpMethod, HttpRequest};

fn header<'a>(req: &'a HttpRequest, name: &str) -> Option<&'a str> {
    req.headers.iter().find(|(n, _)| n == name).map(|(_, v)| v.as_str())
}

const HELP_BODY: &str = "{\"content\":\"--- 🤖 Comandos Disponibles ---\\n**!ping**: Responde con un Pong y verifica la conexión.\\n**!status**: Muestra el estado de la memoria RAM del ESP32.\\n**!help**: Muestra esta lista de comandos.\\n\"}";

#[test]
fn ping_command_posts_pong_to_channel() {
    let req = handle_command("!ping", "TOKEN", "123", 1000).expect("ping is a command");
    assert_eq!(req.method, HttpMethod::Post);
    assert_eq!(req.url, "https://discord.com/api/v10/channels/123/messages");
    assert_eq!(
        req.headers,
        vec![
            ("Authorization".to_string(), "Bot TOKEN".to_string()),
            ("Content-Type".to_string(), "application/json".to_string()),
            ("Connection".to_string(), "close".to_string()),
        ]
    );
    assert_eq!(req.body, "{\"content\":\"🏓 ¡Pong desde el ESP32!\"}");
}

#[test]
fn commands_are_trimmed_and_case_insensitive() {
    let req = handle_command("  \t!PiNg \n", "T", "9", 0).expect("still ping");
    assert_eq!(req.body, "{\"content\":\"🏓 ¡Pong desde el ESP32!\"}");
    let req = handle_command("\u{3000}!STATUS\u{a0}", "T", "9", 7).expect("status");
    assert_eq!(req.body, "{\"content\":\"📊 RAM Libre: 7 bytes\"}");
}

#[test]
fn status_command_reports_heap() {
    let req = handle_command("!status", "T", "42", 123456).unwrap();
    assert_eq!(req.body, "{\"content\":\"📊 RAM Libre: 123456 bytes\"}");
    let req = handle_command("!status", "T", "42", 0).unwrap();
    assert_eq!(req.body, "{\"content\":\"📊 RAM Libre: 0 bytes\"}");
    let req = handle_command("!status", "T", "42", u32::MAX).unwrap();
    assert_eq!(req.body, "{\"content\":\"📊 RAM Libre: 4294967295 bytes\"}");
}

#[test]
fn help_command_lists_every_command() {
    let req = handle_command("!help", "T", "42", 0).unwrap();
    assert_eq!(req.body, HELP_BODY);
    let table = commands();
    assert_eq!(table.len(), 3);
    assert_eq!(table[0].name, "!ping");
    assert_eq!(table[1].action, CommandAction::Status);
    assert!(help_message(&table).starts_with("--- 🤖 Comandos Disponibles ---\\n"));
}

#[test]
fn unknown_messages_get_no_reply() {
    assert!(handle_command("hello", "T", "1", 0).is_none());
    assert!(handle_command("!pingx", "T", "1", 0).is_none());
    assert!(handle_command("ping", "T", "1", 0).is_none());
    assert!(handle_command("! ping", "T", "1", 0).is_none());
    assert!(handle_command("", "T", "1", 0).is_none());
}

#[test]
fn slash_responses() {
    assert_eq!(get_response_for("ping", 5), "🏓 ¡Pong desde el ESP32!");
    assert_eq!(get_response_for("!ping", 5), "🏓 ¡Pong desde el ESP32!");
    assert_eq!(get_response_for(" PING ", 5), "🏓 ¡Pong desde el ESP32!");
    assert_eq!(get_response_for("!  status", 2048), "📊 RAM Libre: 2048 bytes");
    assert_eq!(get_response_for("Status", 10), "📊 RAM Libre: 10 bytes");
    assert_eq!(get_response_for("help", 5), "Comando no reconocido");
    assert_eq!(get_response_for("!!ping", 5), "Comando no reconocido");
    assert_eq!(get_response_for(" !ping", 5), "Comando no reconocido");
    assert_eq!(get_response_for("", 5), "Comando no reconocido");
}

fn interaction_body(content: &str) -> String {
    let mut data = serde_json::Map::new();
    data.insert("content".to_string(), serde_json::Value::String(content.to_string()));
    let mut root = serde_json::Map::new();
    root.insert("type".to_string(), serde_json::Value::from(4u64));
    root.insert("data".to_string(), serde_json::Value::Object(data));
    serde_json::Value::Object(root).to_string()
}

#[test]
fn interaction_answer_is_posted_to_callback() {
    let req = handle_interaction("ping", "111", "tok-en", 0);
    assert_eq!(req.method, HttpMethod::Post);
    assert_eq!(req.url, "https://discord.com/api/v10/interactions/111/tok-en/callback");
    assert_eq!(req.body, "{\"data\":{\"content\":\"🏓 ¡Pong desde el ESP32!\"},\"type\":4}");
    assert_eq!(req.body, interaction_body("🏓 ¡Pong desde el ESP32!"));
    assert_eq!(header(&req, "Content-Type"), Some("application/json"));
    assert_eq!(header(&req, "Content-Length"), Some(req.body.len().to_string().as_str()));
    assert_eq!(header(&req, "Connection"), Some("close"));
    assert_eq!(req.headers.len(), 3);
}

#[test]
fn interaction_content_is_json_escaped() {
    let content = "say \"hi\"\\ now\nok\u{1}";
    let req = send_interaction_reply("1", "2", content);
    assert_eq!(req.body, interaction_body(content));
    assert!(req.body.contains("\\\"hi\\\""));
    assert!(req.body.contains("\\n"));
    assert_eq!(header(&req, "Content-Length"), Some(req.body.len().to_string().as_str()));
}

#[test]
fn status_interaction_reports_heap() {
    let req = handle_interaction("status", "1", "2", 77);
    assert_eq!(req.body, interaction_body("📊 RAM Libre: 77 bytes"));
    let req = handle_interaction("nope", "1", "2", 77);
    assert_eq!(req.body, interaction_body("Comando no reconocido"));
}

fn command_definition(name: &str, description: &str) -> serde_json::Value {
    let mut m = serde_json::Map::new();
    m.insert("name".to_string(), serde_json::Value::from(name));
    m.insert("description".to_string(), serde_json::Value::from(description));
    m.insert("type".to_string(), serde_json::Value::from(1u64));
    m.insert(
        "integration_types".to_string(),
        serde_json::Value::Array(vec![serde_json::Value::from(0u64), serde_json::Value::from(1u64)]),
    );
    m.insert(
        "contexts".to_string(),
        serde_json::Value::Array(vec![
            serde_json::Value::from(0u64),
            serde_json::Value::from(1u64),
            serde_json::Value::from(2u64),
        ]),
    );
    serde_json::Value::Object(m)
}

#[test]
fn slash_command_registration() {
    let req = register_slash_commands("SECRET", "987");
    assert_eq!(req.method, HttpMethod::Put);
    assert_eq!(req.url, "https://discord.com/api/v10/applications/987/commands");
    let expected = serde_json::Value::Array(vec![
        command_definition("ping", "Verifica si el ESP32 esta vivo"),
        command_definition("status", "Muestra la RAM libre del ESP32"),
    ])
    .to_string();
    assert_eq!(req.body, expected);
    assert_eq!(
        req.headers,
        vec![
            ("Authorization".to_string(), "Bot SECRET".to_string()),
            ("Content-Type".to_string(), "application/json".to_string()),
            ("Content-Length".to_string(), expected.len().to_string()),
            ("User-Agent".to_string(), "ESP32-Rust".to_string()),
            ("Connection".to_string(), "close".to_string()),
        ]
    );
}

#[test]
fn normalized_names_are_matched_exactly() {
    let req = reply_to_command("!status", "T", "C", 5).unwrap();
    assert_eq!(req.body, "{\"content\":\"📊 RAM Libre: 5 bytes\"}");
    assert!(reply_to_command("!STATUS", "T", "C", 5).is_none());
    assert!(reply_to_command(" !status", "T", "C", 5).is_none());
}

#[test]
fn normalized_keys_are_answered() {
    assert_eq!(response_for_name("ping", 1), "🏓 ¡Pong desde el ESP32!");
    assert_eq!(response_for_name("status", 9), "📊 RAM Libre: 9 bytes");
    assert_eq!(response_for_name("PING", 1), "Comando no reconocido");
    assert_eq!(strip_command_prefix("!x"), "x");
    assert_eq!(strip_command_prefix("!!x"), "!x");
    assert_eq!(strip_command_prefix("x!"), "x!");
    assert_eq!(strip_command_prefix(""), "");
}

#[test]
fn interaction_reply_from_literal() {
    let req = interaction_reply_with("5", "6", "\"x\"");
    assert_eq!(req.body, "{\"data\":{\"content\":\"x\"},\"type\":4}");
    assert_eq!(req.url, "https://discord.com/api/v10/interactions/5/6/callback");
    assert_eq!(header(&req, "Content-Length"), Some("33"));
}

#[test]
fn ascii_case_is_ignored() {
    for name in ["!PING", "!Ping", "!pInG"] {
        let req = handle_command(name, "T", "C", 0).expect("ping in any case");
        assert_eq!(req.body, "{\"content\":\"🏓 ¡Pong desde el ESP32!\"}");
    }
    assert_eq!(get_response_for("!STATUS", 3), "📊 RAM Libre: 3 bytes");
    assert_eq!(get_response_for("PiNg", 3), "🏓 ¡Pong desde el ESP32!");
}

#[test]
fn escapes_follow_serde_json() {
    let content = "\u{8}\t\n\u{b}\u{c}\r\u{1f}\u{7f}/é\"\\";
    let req = send_interaction_reply("1", "2", content);
    assert_eq!(
        req.body,
        "{\"data\":{\"content\":\"\\b\\t\\n\\u000b\\f\\r\\u001f\u{7f}/é\\\"\\\\\"},\"type\":4}"
    );
    assert_eq!(req.body, interaction_body(content));
    let back: serde_json::Value = serde_json::from_str(&req.body).unwrap();
    assert_eq!(back["data"]["content"].as_str(), Some(content));
}

#[test]
fn slash_commands_ignore_ascii_case() {
    let req = handle_interaction("!PING", "1", "2", 0);
    assert_eq!(req.body, interaction_body("🏓 ¡Pong desde el ESP32!"));
    let req = handle_interaction(" Status", "1", "2", 8);
    assert_eq!(req.body, interaction_body("📊 RAM Libre: 8 bytes"));
}
