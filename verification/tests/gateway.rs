use discord_bot::discord::bot::identify_with;
use discord_bot::discord::bot::{classify_event, GatewayFields};
use discord_bot::discord::bot::{
    heartbeat, identify, next_action, process_discord_event, BotAction, BotEvent, GatewayBuffer,
    LoopInput,
};

fn identify_expected(token: &str) -> String {
    let mut props = serde_json::Map::new();
    props.insert("os".to_string(), serde_json::Value::from("esp32"));
    props.insert("browser".to_string(), serde_json::Value::from("esp-bot"));
    props.insert("device".to_string(), serde_json::Value::from("esp32"));
    let mut d = serde_json::Map::new();
    d.insert("token".to_string(), serde_json::Value::from(token));
    d.insert("intents".to_string(), serde_json::Value::from(37377u64));
    d.insert("properties".to_string(), serde_json::Value::Object(props));
    let mut root = serde_json::Map::new();
    root.insert("op".to_string(), serde_json::Value::from(2u64));
    root.insert("d".to_string(), serde_json::Value::Object(d));
    serde_json::Value::Object(root).to_string()
}

#[test]
fn hello_event() {
    let e = process_discord_event("{\"op\":10,\"d\":{\"heartbeat_interval\":41250}}", "T", "C");
    assert!(matches!(e, Some(BotEvent::Op10Hello)));
}

#[test]
fn message_event_from_user() {
    let text = "{\"op\":0,\"t\":\"MESSAGE_CREATE\",\"d\":{\"content\":\"!ping\",\"channel_id\":\"55\",\"author\":{\"bot\":false}}}";
    match process_discord_event(text, "TOK", "DEF") {
        Some(BotEvent::Message(c, t, ch)) => {
            assert_eq!(c, "!ping");
            assert_eq!(t, "TOK");
            assert_eq!(ch, "55");
        }
        other => panic!("unexpected {:?}", other),
    }
}

#[test]
fn message_defaults() {
    let text = "{\"op\":0,\"t\":\"MESSAGE_CREATE\",\"d\":{\"author\":{}}}";
    match process_discord_event(text, "TOK", "DEF") {
        Some(BotEvent::Message(c, _, ch)) => {
            assert_eq!(c, "");
            assert_eq!(ch, "DEF");
        }
        other => panic!("unexpected {:?}", other),
    }
}

#[test]
fn bot_messages_are_dropped() {
    let text = "{\"op\":0,\"t\":\"MESSAGE_CREATE\",\"d\":{\"content\":\"!ping\",\"channel_id\":\"55\",\"author\":{\"bot\":true}}}";
    assert!(process_discord_event(text, "T", "C").is_none());
}

#[test]
fn interaction_event() {
    let text = "{\"op\":0,\"t\":\"INTERACTION_CREATE\",\"d\":{\"type\":2,\"id\":\"77\",\"token\":\"itok\",\"data\":{\"name\":\"status\"}}}";
    match process_discord_event(text, "T", "C") {
        Some(BotEvent::Interaction(n, i, k)) => {
            assert_eq!(n, "status");
            assert_eq!(i, "77");
            assert_eq!(k, "itok");
        }
        other => panic!("unexpected {:?}", other),
    }
    let ping = "{\"op\":0,\"t\":\"INTERACTION_CREATE\",\"d\":{\"type\":1,\"id\":\"77\"}}";
    assert!(process_discord_event(ping, "T", "C").is_none());
}

#[test]
fn other_events_are_ignored() {
    assert!(process_discord_event("{\"op\":11}", "T", "C").is_none());
    assert!(process_discord_event("{\"op\":0,\"t\":\"READY\",\"d\":{}}", "T", "C").is_none());
    assert!(process_discord_event("{\"op\":\"10\"}", "T", "C").is_none());
    assert!(process_discord_event("not json", "T", "C").is_none());
    assert!(process_discord_event("[10]", "T", "C").is_none());
}

#[test]
fn frames_are_reassembled() {
    let mut buf = GatewayBuffer::new();
    assert!(buf.feed("{\"op\":10,").is_none());
    let doc = buf.feed("\"d\":null}").expect("complete document");
    assert_eq!(doc, "{\"op\":10,\"d\":null}");
    let doc = buf.feed("{\"op\":11}").expect("buffer was emptied");
    assert_eq!(doc, "{\"op\":11}");
}

#[test]
fn oversized_garbage_is_dropped() {
    let mut buf = GatewayBuffer::new();
    assert!(buf.feed(&"x".repeat(32768)).is_none());
    assert!(buf.feed("y").is_none());
    let doc = buf.feed("{\"op\":1}").expect("buffer was cleared");
    assert_eq!(doc, "{\"op\":1}");
}

#[test]
fn buffer_limit_counts_bytes() {
    let mut buf = GatewayBuffer::new();
    assert!(buf.feed(&"ñ".repeat(16384)).is_none());
    assert!(buf.feed("ñ").is_none());
    assert_eq!(buf.feed("{}").as_deref(), Some("{}"));
    let mut kept = GatewayBuffer::new();
    assert!(kept.feed(&"\"".repeat(1)).is_none());
    assert_eq!(kept.feed("a\"").as_deref(), Some("\"a\""));
}

#[test]
fn identify_and_heartbeat_payloads() {
    assert_eq!(identify("abc"), identify_expected("abc"));
    assert_eq!(identify("a\"b"), identify_expected("a\"b"));
    assert_eq!(heartbeat(), "{\"d\":null,\"op\":1}");
    let mut root = serde_json::Map::new();
    root.insert("op".to_string(), serde_json::Value::from(1u64));
    root.insert("d".to_string(), serde_json::Value::Null);
    assert_eq!(heartbeat(), serde_json::Value::Object(root).to_string());
}

#[test]
fn loop_actions() {
    match next_action(LoopInput::Event(BotEvent::Op10Hello), "tk") {
        BotAction::Send(s) => assert_eq!(s, identify_expected("tk")),
        other => panic!("unexpected {:?}", other),
    }
    match next_action(LoopInput::Timeout, "tk") {
        BotAction::Send(s) => assert_eq!(s, "{\"d\":null,\"op\":1}"),
        other => panic!("unexpected {:?}", other),
    }
    assert!(matches!(next_action(LoopInput::Closed, "tk"), BotAction::Stop));
    match next_action(
        LoopInput::Event(BotEvent::Message("!help".into(), "t".into(), "c".into())),
        "tk",
    ) {
        BotAction::RunCommand(a, b, c) => assert_eq!((a.as_str(), b.as_str(), c.as_str()), ("!help", "t", "c")),
        other => panic!("unexpected {:?}", other),
    }
    match next_action(
        LoopInput::Event(BotEvent::Interaction("ping".into(), "i".into(), "k".into())),
        "tk",
    ) {
        BotAction::RunInteraction(a, b, c) => assert_eq!((a.as_str(), b.as_str(), c.as_str()), ("ping", "i", "k")),
        other => panic!("unexpected {:?}", other),
    }
}

#[test]
fn identify_from_literal() {
    assert_eq!(identify_with("\"k\""), identify_expected("k"));
}

#[test]
fn settle_decides_on_parse_result() {
    let mut buf = GatewayBuffer::new();
    assert!(buf.feed("{").is_none());
    assert!(buf.settle(false).is_none());
    assert_eq!(buf.settle(true).as_deref(), Some("{"));
    assert!(buf.settle(false).is_none());
    assert_eq!(buf.settle(true).as_deref(), Some(""));
}

#[test]
fn classification_of_plain_fields() {
    let fields = GatewayFields {
        op: Some(0),
        event_name: Some("MESSAGE_CREATE".to_string()),
        author_is_bot: None,
        content: Some("hola".to_string()),
        channel_id: None,
        interaction_type: None,
        command_name: None,
        interaction_id: None,
        interaction_token: None,
    };
    match classify_event(fields, "tok", "def") {
        Some(BotEvent::Message(c, t, ch)) => {
            assert_eq!((c.as_str(), t.as_str(), ch.as_str()), ("hola", "tok", "def"));
        }
        other => panic!("unexpected {:?}", other),
    }
    let fields = GatewayFields {
        op: Some(0),
        event_name: Some("INTERACTION_CREATE".to_string()),
        author_is_bot: Some(true),
        content: None,
        channel_id: None,
        interaction_type: Some(2),
        command_name: None,
        interaction_id: Some("i".to_string()),
        interaction_token: None,
    };
    match classify_event(fields, "tok", "def") {
        Some(BotEvent::Interaction(n, i, k)) => {
            assert_eq!((n.as_str(), i.as_str(), k.as_str()), ("", "i", ""));
        }
        other => panic!("unexpected {:?}", other),
    }
}
