use limitless_cli::socketio::{
    feed_step, feed_url, json_string_literal, packet_preview, sio_event_payload, FeedAction, FeedEvent, FeedFailure,
    FeedState, FrameKind,
};

fn text(t: &str) -> FeedEvent {
    FeedEvent::Message { kind: FrameKind::Text, text: Some(t.to_string()), payload: Vec::new() }
}

fn sent(actions: &[FeedAction]) -> Vec<String> {
    actions
        .iter()
        .filter_map(|a| match a {
            FeedAction::Send(t) => Some(t.clone()),
            _ => None,
        })
        .collect()
}

#[test]
fn feed_url_appends_the_socket_io_path() {
    assert_eq!(feed_url("wss://ws.limitless.exchange"), "wss://ws.limitless.exchange/socket.io/?EIO=4&transport=websocket");
}

#[test]
fn json_literals_escape_like_serde_json() {
    assert_eq!(json_string_literal("btc-100k"), "\"btc-100k\"");
    assert_eq!(json_string_literal("a\"b\\c\nd\u{1}"), "\"a\\\"b\\\\c\\nd\\u0001\"");
    assert_eq!(json_string_literal("tab\there"), serde_json::to_string("tab\there").unwrap());
    assert_eq!(json_string_literal("\u{1f}é"), serde_json::to_string("\u{1f}é").unwrap());
}

#[test]
fn handshake_then_subscription() {
    let (st, acts) = feed_step(FeedState::AwaitingOpen, text("0{\"sid\":\"abc\"}"), "btc-100k");
    assert_eq!(st, FeedState::AwaitingAck);
    assert_eq!(sent(&acts), vec!["40/markets,"]);
    let (st, acts) = feed_step(st, FeedEvent::SendDone, "btc-100k");
    assert_eq!(st, FeedState::AwaitingAck);
    assert!(acts.is_empty());
    let (st, acts) = feed_step(st, text("40/markets,{\"sid\":\"x\"}"), "btc-100k");
    assert_eq!(st, FeedState::Subscribing);
    assert!(matches!(acts[0], FeedAction::Connected));
    assert_eq!(
        sent(&acts),
        vec!["42/markets,[\"subscribe_market_prices\",{\"marketSlugs\":[\"btc-100k\"]}]"]
    );
    let (st, acts) = feed_step(st, FeedEvent::SendDone, "btc-100k");
    assert_eq!(st, FeedState::Streaming);
    assert!(acts.is_empty());
}

#[test]
fn subscribe_packet_matches_serde_json() {
    let slug = "we\"ird";
    let (_, acts) = feed_step(FeedState::AwaitingAck, text("40/markets,{}"), slug);
    let mut body = serde_json::Map::new();
    body.insert(
        "marketSlugs".to_string(),
        serde_json::Value::Array(vec![serde_json::Value::String(slug.to_string())]),
    );
    let event = serde_json::Value::Array(vec![
        serde_json::Value::String("subscribe_market_prices".to_string()),
        serde_json::Value::Object(body),
    ]);
    let expected = format!("42/markets,{}", serde_json::to_string(&event).unwrap());
    assert_eq!(sent(&acts), vec![expected]);
}

#[test]
fn handshake_failures() {
    let (st, acts) = feed_step(FeedState::AwaitingOpen, FeedEvent::StreamEnd, "s");
    assert_eq!(st, FeedState::Finished);
    assert!(matches!(acts[0], FeedAction::Fail(FeedFailure::ClosedBeforeOpen)));
    let (st, acts) = feed_step(FeedState::AwaitingOpen, text("hello"), "s");
    assert_eq!(st, FeedState::Finished);
    assert!(matches!(&acts[0], FeedAction::Fail(FeedFailure::UnexpectedOpen(t)) if t == "hello"));
    let (_, acts) = feed_step(
        FeedState::AwaitingOpen,
        FeedEvent::Message { kind: FrameKind::Other, text: None, payload: vec![1] },
        "s",
    );
    assert!(matches!(acts[0], FeedAction::Fail(FeedFailure::OpenNotText)));
    let (st, acts) = feed_step(FeedState::AwaitingAck, text("44/markets,{\"message\":\"no\"}"), "s");
    assert_eq!(st, FeedState::Finished);
    assert!(matches!(&acts[0], FeedAction::Fail(FeedFailure::ConnectRejected(_))));
    let (_, acts) = feed_step(FeedState::AwaitingAck, text("2"), "s");
    assert!(matches!(&acts[0], FeedAction::Fail(FeedFailure::UnexpectedAck(t)) if t == "2"));
    let (_, acts) = feed_step(FeedState::AwaitingAck, FeedEvent::SendFailed, "s");
    assert!(matches!(acts[0], FeedAction::Fail(FeedFailure::ConnectSendFailed)));
    let (_, acts) = feed_step(FeedState::Subscribing, FeedEvent::SendFailed, "s");
    assert!(matches!(acts[0], FeedAction::Fail(FeedFailure::SubscribeSendFailed)));
}

#[test]
fn streaming_answers_pings_and_hands_on_events() {
    let (st, acts) = feed_step(FeedState::Streaming, text("2"), "s");
    assert_eq!(st, FeedState::Streaming);
    assert_eq!(sent(&acts), vec!["3"]);
    let (_, acts) = feed_step(FeedState::Streaming, text("3"), "s");
    assert!(acts.is_empty());
    let (_, acts) = feed_step(
        FeedState::Streaming,
        FeedEvent::Message { kind: FrameKind::Ping, text: None, payload: vec![9, 8] },
        "s",
    );
    assert!(matches!(&acts[0], FeedAction::Pong(p) if p == &vec![9u8, 8]));
    let (_, acts) = feed_step(FeedState::Streaming, text("42/markets,[\"orderbookUpdate\",{}]"), "s");
    assert!(matches!(&acts[0], FeedAction::Event(j) if j == "[\"orderbookUpdate\",{}]"));
    let (st, acts) = feed_step(FeedState::Streaming, text("41/markets,"), "s");
    assert_eq!(st, FeedState::Finished);
    assert!(matches!(&acts[0], FeedAction::Disconnected(r) if r == "server sent disconnect"));
    assert!(matches!(&acts[1], FeedAction::Disconnected(r) if r == "WS stream ended"));
    let (st, acts) = feed_step(
        FeedState::Streaming,
        FeedEvent::Message { kind: FrameKind::Close, text: None, payload: Vec::new() },
        "s",
    );
    assert_eq!(st, FeedState::Finished);
    assert!(matches!(&acts[0], FeedAction::Disconnected(r) if r == "WS closed"));
    let (_, acts) = feed_step(FeedState::Streaming, FeedEvent::ReadError("boom".to_string()), "s");
    assert!(matches!(&acts[0], FeedAction::Disconnected(r) if r == "WS error: boom"));
}

#[test]
fn finished_feeds_stay_finished() {
    let (st, acts) = feed_step(FeedState::Finished, text("2"), "s");
    assert_eq!(st, FeedState::Finished);
    assert!(acts.is_empty());
}

#[test]
fn event_payloads_drop_the_packet_prefix() {
    assert_eq!(sio_event_payload("42/markets,[\"a\",1]").unwrap(), "[\"a\",1]");
    assert_eq!(sio_event_payload("42[\"a\",1]").unwrap(), "[\"a\",1]");
    assert!(sio_event_payload("42/markets[\"a\"]").is_none());
    assert!(sio_event_payload("43/markets,[]").is_none());
    assert!(sio_event_payload("4").is_none());
}

#[test]
fn packet_previews_keep_80_bytes() {
    assert_eq!(packet_preview("short"), "short");
    let long = "x".repeat(100);
    assert_eq!(packet_preview(&long), "x".repeat(80));
}
