use discord_bot::discord::fetch::{first_message, last_message_request};
use discord_bot::discord::models::DiscordMessage;
use discord_bot::discord::send::reply_request;
use discord_bot::http::{length_of, reply_accepted, HttpMethod};

fn msg(id: &str, content: &str) -> DiscordMessage {
    DiscordMessage { id: id.to_string(), content: content.to_string() }
}

#[test]
fn reply_request_frames_post() {
    let req = reply_request("TK", "C1", "{\"content\":\"x\"}");
    assert_eq!(req.method, HttpMethod::Post);
    assert_eq!(req.url, "https://discord.com/api/v10/channels/C1/messages");
    assert_eq!(req.headers[0], ("Authorization".to_string(), "Bot TK".to_string()));
    assert_eq!(req.headers.len(), 3);
    assert_eq!(req.body, "{\"content\":\"x\"}");
}

#[test]
fn accepted_statuses() {
    assert!(reply_accepted(200));
    assert!(reply_accepted(201));
    assert!(!reply_accepted(204));
    assert!(!reply_accepted(401));
    assert!(!reply_accepted(500));
}

#[test]
fn last_message_request_frames_get() {
    let req = last_message_request("TK", "99");
    assert_eq!(req.method, HttpMethod::Get);
    assert_eq!(req.url, "https://discord.com/api/v10/channels/99/messages?limit=1");
    assert_eq!(
        req.headers,
        vec![
            ("Authorization".to_string(), "Bot TK".to_string()),
            ("User-Agent".to_string(), "ESP32".to_string()),
        ]
    );
    assert_eq!(req.body, "");
}

#[test]
fn newest_message_is_picked() {
    let m = first_message(200, Some(vec![msg("1", "hola"), msg("2", "adios")])).unwrap();
    assert_eq!(m.id, "1");
    assert_eq!(m.content, "hola");
    assert!(first_message(200, Some(vec![])).is_none());
    assert!(first_message(404, Some(vec![msg("1", "hola")])).is_none());
    assert!(first_message(200, None).is_none());
}

#[test]
fn content_length_counts_utf8_bytes() {
    assert_eq!(length_of(""), "0");
    assert_eq!(length_of("abc"), "3");
    assert_eq!(length_of("ñ"), "2");
    assert_eq!(length_of("🏓"), "4");
    assert_eq!(length_of(&"a".repeat(1234)), "1234");
}
